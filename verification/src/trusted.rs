//! The calls into outside crates that the encoder relies on, each behind a
//! contract that Verus believes without proof.

use rand::Rng;
use vstd::prelude::*;

verus! {

/// Declares `std::io::Error` so the encoder's results can carry it; the
/// in-memory encoder never constructs one.
#[verifier::external_type_specification]
#[verifier::external_body]
pub struct ExIoError(std::io::Error);

/// Relies on rand's `thread_rng`, `Uniform` and `sample_iter`: every sample
/// is drawn from `0..=9`, so the collected string has one decimal digit per
/// sample. Nothing else can be promised of a random value.
#[verifier::external_body]
pub(crate) fn random_alphanumeric(len: usize) -> (r: String)
    ensures
        r@.len() == len as nat,
        forall|i: int| 0 <= i < r@.len() ==> '0' <= #[trigger] r@[i] && r@[i] <= '9',
{
    rand::thread_rng()
        .sample_iter(&rand::distributions::Uniform::from(0..=9))
        .take(len)
        .map(|num| num.to_string())
        .collect()
}

/// The content type that mime_guess infers for a path. The guess comes from
/// a fixed table keyed by the path's extension, so it is a function of the
/// path alone; it is too large to state here.
pub uninterp spec fn mime_of(path: Seq<char>) -> Seq<char>;

/// Relies on `mime_guess::from_path` and `MimeGuess::first_or_octet_stream`:
/// the guess is looked up in a fixed extension table, with
/// `application/octet-stream` as the fallback, so the result depends on the
/// path alone.
#[verifier::external_body]
pub(crate) fn guess_mime_type(path: &str) -> (r: String)
    ensures
        r@ == mime_of(path@),
{
    mime_guess::from_path(path).first_or_octet_stream().to_string()
}

} // verus!
