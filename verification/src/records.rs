//! The records that the adoption catalogue is read into.

use vstd::prelude::*;
use std::path::PathBuf;

verus! {

/// `std::path::PathBuf`: a path in the file system, of which nothing is
/// known.
#[verifier::external_type_specification]
#[verifier::external_body]
pub struct ExPathBuf(PathBuf);

/// One photo of a pet: where it was published, where it was saved, and the
/// pet it shows once that is known.
#[derive(Debug, Clone, PartialEq, Eq, PartialOrd, Ord)]
pub struct PetPhoto {
    pub display_photo_url: String,
    pub saved_path: Option<PathBuf>,
    pub pet_id: Option<i32>,
}

/// One labelled detail of a pet's description.
#[derive(Debug, Clone)]
pub struct PetAttribute {
    pub label: String,
    pub content: Option<String>,
}

} // verus!
