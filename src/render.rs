use vstd::prelude::*;

verus! {

/// Image formats a rendered image can be handed out as.
#[derive(Clone, Copy, Debug, PartialEq, Eq, Structural)]
pub enum MimeType {
    PNG,
    JPEG,
}

impl MimeType {
    /// The media type's name.
    pub open spec fn name(self) -> Seq<char> {
        match self {
            MimeType::PNG => "image/png"@,
            MimeType::JPEG => "image/jpg"@,
        }
    }

    /// The media type's name, as handed to the image-handle converter.
    pub fn to_string(&self) -> (r: String)
        ensures
            r@ == self.name(),
    {
        match self {
            MimeType::PNG => "image/png".to_owned(),
            MimeType::JPEG => "image/jpg".to_owned(),
        }
    }
}

/// A triangle mesh read from an STL file.
#[verifier::external_type_specification]
#[verifier::external_body]
pub struct ExMesh(nom_stl::Mesh);

/// Whether `nom_stl::parse_stl` accepts these bytes as an STL file.
pub uninterp spec fn stl_accepts(bytes: Seq<u8>) -> bool;

/// Relies on `nom_stl::parse_stl`, which reads an STL file (ASCII or binary) from
/// any seekable reader. Its outcome depends on the bytes alone: the environment
/// variable it reads only sizes a zero-filled prefix of the buffer it searches for
/// the ASCII marker, and the marker cannot match within zeros. Its one unchecked
/// read is from this in-memory cursor, which cannot fail.
#[verifier::external_body]
pub(crate) fn parse_mesh(bytes: &Vec<u8>) -> (r: Option<nom_stl::Mesh>)
    ensures
        (r is Some) == stl_accepts(bytes@),
{
    let mut reader = std::io::Cursor::new(bytes.as_slice());
    nom_stl::parse_stl(&mut reader).ok()
}

} // verus!
