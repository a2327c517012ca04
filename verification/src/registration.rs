//! Install-time bookkeeping values: the details-template strings written
//! next to each file type's registration.
//!
//! Installing the handler augments a file type's "full details" and
//! "preview details" template strings with the keyword property, saving the
//! previous value for restoration at uninstall.  The writes themselves are
//! the installer's job; this module computes the values written.

use vstd::prelude::*;
use vstd::string::StrSliceExecFns;
use vstd::string::StringExecFns;

verus! {

/// The full-details template written for a type that had none: the keyword
/// property and its group, followed by the stock image and file-system
/// entries.
pub fn fresh_full_details() -> (r: &'static str)
    ensures
        r@ == "prop:System.PropGroup.Description;System.Keywords;System.PropGroup.Image;System.Image.Dimensions;System.Image.HorizontalSize;System.Image.VerticalSize;System.PropGroup.FileSystem;System.ItemNameDisplay;System.ItemType;System.ItemFolderPathDisplay;System.DateCreated;System.DateModified;System.Size;System.FileAttributes;System.OfflineAvailability;System.OfflineStatus;System.SharedWith;System.FileOwner;System.ComputerName"@,
{
    "prop:System.PropGroup.Description;System.Keywords;System.PropGroup.Image;System.Image.Dimensions;System.Image.HorizontalSize;System.Image.VerticalSize;System.PropGroup.FileSystem;System.ItemNameDisplay;System.ItemType;System.ItemFolderPathDisplay;System.DateCreated;System.DateModified;System.Size;System.FileAttributes;System.OfflineAvailability;System.OfflineStatus;System.SharedWith;System.FileOwner;System.ComputerName"
}

/// The preview-details template written for a type that had none.
pub fn fresh_preview_details() -> (r: &'static str)
    ensures
        r@ == "prop:*System.Image.Dimensions;*System.Size;*System.OfflineAvailability;*System.OfflineStatus;*System.DateCreated;*System.DateModified;*System.DateAccessed;*System.SharedWith;System.Keywords"@,
{
    "prop:*System.Image.Dimensions;*System.Size;*System.OfflineAvailability;*System.OfflineStatus;*System.DateCreated;*System.DateModified;*System.DateAccessed;*System.SharedWith;System.Keywords"
}

/// The full-details template restored at uninstall for a type whose
/// original value was not saved.
pub fn stock_full_details() -> (r: &'static str)
    ensures
        r@ == "prop:System.PropGroup.Image;System.Image.Dimensions;System.Image.HorizontalSize;System.Image.VerticalSize;System.PropGroup.FileSystem;System.ItemNameDisplay;System.ItemType;System.ItemFolderPathDisplay;System.DateCreated;System.DateModified;System.Size;System.FileAttributes;System.OfflineAvailability;System.OfflineStatus;System.SharedWith;System.FileOwner;System.ComputerName"@,
{
    "prop:System.PropGroup.Image;System.Image.Dimensions;System.Image.HorizontalSize;System.Image.VerticalSize;System.PropGroup.FileSystem;System.ItemNameDisplay;System.ItemType;System.ItemFolderPathDisplay;System.DateCreated;System.DateModified;System.Size;System.FileAttributes;System.OfflineAvailability;System.OfflineStatus;System.SharedWith;System.FileOwner;System.ComputerName"
}

/// The preview-details template restored at uninstall for a type whose
/// original value was not saved.
pub fn stock_preview_details() -> (r: &'static str)
    ensures
        r@ == "prop:*System.Image.Dimensions;*System.Size;*System.OfflineAvailability;*System.OfflineStatus;*System.DateCreated;*System.DateModified;*System.DateAccessed;*System.SharedWith"@,
{
    "prop:*System.Image.Dimensions;*System.Size;*System.OfflineAvailability;*System.OfflineStatus;*System.DateCreated;*System.DateModified;*System.DateAccessed;*System.SharedWith"
}

/// A full-details template with the keyword group spliced in, right after
/// the five-character template prefix the existing value starts with.
pub fn patched_full_details(existing: &str) -> (r: String)
    requires
        existing@.len() >= 5,
    ensures
        r@ == existing@.subrange(0, 5) + "System.PropGroup.Description;System.Keywords;"@
            + existing@.subrange(5, existing@.len() as int),
{
    let n = existing.unicode_len();
    let head = existing.substring_char(0, 5);
    let tail = existing.substring_char(5, n);
    let mut r = String::from_str(head);
    r.append("System.PropGroup.Description;System.Keywords;");
    r.append(tail);
    r
}

/// A preview-details template with the keyword property appended.
pub fn patched_preview_details(existing: &str) -> (r: String)
    ensures
        r@ == existing@ + ";System.Keywords"@,
{
    let mut r = String::from_str(existing);
    r.append(";System.Keywords");
    r
}

} // verus!
