//! What differs from one operating system to the next.
use vstd::prelude::*;

use crate::error::{AppError, AppErrorView};

verus! {

broadcast use vstd::string::group_string_axioms;

/// The families of operating system that are told apart.
#[derive(Clone, Copy, Debug, PartialEq, Eq, Structural)]
pub enum Platform {
    Linux,
    MacOs,
    OtherUnix,
    Windows,
    Other,
}

/// The system's numbers for the errors that decisions depend on.
#[derive(Clone, Copy, Debug, PartialEq, Eq, Structural)]
pub struct ErrorNumbers {
    /// `EEXIST`.
    pub exists: i32,
    /// `ELOOP`.
    pub too_many_links: i32,
    /// `EPERM`.
    pub not_permitted: i32,
    /// `ENOSYS`.
    pub no_such_call: i32,
    /// `EINVAL`.
    pub invalid: i32,
    /// `ENOTSUP`.
    pub not_supported: i32,
}

/// Whether `platform` is a Unix.
pub open spec fn unix(platform: Platform) -> bool {
    platform == Platform::Linux || platform == Platform::MacOs || platform == Platform::OtherUnix
}

/// Whether `platform` is a Unix.
pub fn is_unix(platform: Platform) -> (yes: bool)
    ensures
        yes == unix(platform),
{
    match platform {
        Platform::Linux => true,
        Platform::MacOs => true,
        Platform::OtherUnix => true,
        Platform::Windows => false,
        Platform::Other => false,
    }
}

/// Windows `FILE_ATTRIBUTE_DIRECTORY`.
pub const FILE_ATTRIBUTE_DIRECTORY: u32 = 0x10;

/// Windows `FILE_ATTRIBUTE_REPARSE_POINT`.
pub const FILE_ATTRIBUTE_REPARSE_POINT: u32 = 0x400;

/// The attributes of a directory.
pub open spec fn says_directory(attributes: u32) -> bool {
    attributes & FILE_ATTRIBUTE_DIRECTORY != 0
}

/// The attributes of a link, a junction or another redirection.
pub open spec fn says_reparse(attributes: u32) -> bool {
    attributes & FILE_ATTRIBUTE_REPARSE_POINT != 0
}

/// What comes of checking that `attributes` are those of a directory that leads
/// nowhere else.
pub open spec fn directory_checked(
    attributes: u32,
    not_a_directory: Seq<char>,
    redirected: Seq<char>,
    checked: Result<(), AppError>,
) -> bool {
    match checked {
        Ok(_) => says_directory(attributes) && !says_reparse(attributes),
        Err(e) => if !says_directory(attributes) {
            e@ == AppErrorView::Validation(not_a_directory)
        } else {
            says_reparse(attributes) && e@ == AppErrorView::Validation(redirected)
        },
    }
}

/// Checks that a handle is a directory itself and no redirection to one.
pub fn ensure_plain_directory(attributes: u32, not_a_directory: &str, redirected: &str) -> (checked:
    Result<(), AppError>)
    ensures
        directory_checked(attributes, not_a_directory@, redirected@, checked),
{
    if attributes & FILE_ATTRIBUTE_DIRECTORY == 0 {
        return Err(AppError::validation(not_a_directory.to_string()));
    }
    if attributes & FILE_ATTRIBUTE_REPARSE_POINT != 0 {
        return Err(AppError::validation(redirected.to_string()));
    }
    Ok(())
}

/// Attributes are those of a plain directory exactly when the bit for directories
/// is set and the bit for redirections is not.
pub proof fn a_plain_directory_has_one_bit_and_not_the_other(
    attributes: u32,
    not_a_directory: Seq<char>,
    redirected: Seq<char>,
    checked: Result<(), AppError>,
)
    requires
        directory_checked(attributes, not_a_directory, redirected, checked),
    ensures
        says_directory(attributes) <==> (attributes / 16) % 2 == 1,
        says_reparse(attributes) <==> (attributes / 1024) % 2 == 1,
        checked is Ok <==> (attributes / 16) % 2 == 1 && (attributes / 1024) % 2 == 0,
        checked matches Err(e) ==> e@ == AppErrorView::Validation(
            if (attributes / 16) % 2 == 0 {
                not_a_directory
            } else {
                redirected
            },
        ),
{
    assert(attributes & 0x10 != 0 <==> (attributes / 16) % 2 == 1) by (bit_vector);
    assert(attributes & 0x400 != 0 <==> (attributes / 1024) % 2 == 1) by (bit_vector);
}

/// A system is one of Unix, Windows or neither.
pub proof fn unix_is_not_windows(platform: Platform)
    ensures
        unix(platform) <==> platform != Platform::Windows && platform != Platform::Other,
{
}

} // verus!
