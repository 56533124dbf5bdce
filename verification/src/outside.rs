//! Types of the standard library that values are carried in, but never looked
//! into, by verified code.

use std::time::SystemTime;
use vstd::prelude::*;

verus! {

/// `std::path::PathBuf`, as an opaque value.
#[verifier::external_type_specification]
#[verifier::external_body]
pub struct ExPathBuf(std::path::PathBuf);

/// `std::time::SystemTime`, as an opaque value.
#[verifier::external_type_specification]
#[verifier::external_body]
pub struct ExSystemTime(std::time::SystemTime);

/// `std::io::Error`, as an opaque value.
#[verifier::external_type_specification]
#[verifier::external_body]
pub struct ExIoError(std::io::Error);

/// `std::sync::Once`, as an opaque value.
#[verifier::external_type_specification]
#[verifier::external_body]
pub struct ExOnce(std::sync::Once);

/// `SystemTime::now` reads the clock; nothing is claimed of what it returns.
pub assume_specification[ std::time::SystemTime::now ]() -> SystemTime;

} // verus!
