//! The image handle of the toolkit, as far as the library relies on it.
//!
//! A handle is what the toolkit's image widget displays. The library makes
//! handles from encoded bytes and passes them on; it never looks inside one.
//! What is said here about handles is taken on trust from the toolkit.

use vstd::prelude::*;

verus! {

/// `iced::image::Handle`, carried through as an opaque value.
#[verifier::external_type_specification]
#[verifier::external_body]
pub struct ExHandle(iced::image::Handle);

/// The encoded image that a handle made from memory holds: the `Data::Bytes`
/// payload behind `iced::image::Handle::data`.
pub uninterp spec fn handle_bytes(handle: iced::image::Handle) -> Seq<u8>;

/// Calls `iced::image::Handle::from_memory`.
///
/// Trusted: the handle holds exactly the bytes it was made from. The toolkit
/// stores them unread and undecoded, so every byte sequence, the empty one
/// included, is accepted.
#[verifier::external_body]
pub(crate) fn handle_from_memory(bytes: Vec<u8>) -> (handle: iced::image::Handle)
    ensures
        handle_bytes(handle) == bytes@,
{
    iced::image::Handle::from_memory(bytes)
}

/// Calls `clone` on an `iced::image::Handle`.
///
/// Trusted: the copy shares the data of the handle it was made from, so it
/// holds the same bytes.
#[verifier::external_body]
pub(crate) fn handle_clone(handle: &iced::image::Handle) -> (copy: iced::image::Handle)
    ensures
        handle_bytes(copy) == handle_bytes(*handle),
{
    handle.clone()
}

} // verus!
