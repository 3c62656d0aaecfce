//! The resource script that embeds the application icon into the Windows
//! executable. Windows reads an executable's icon from an embedded resource;
//! the build compiles this one-line script and links it in.

use vstd::prelude::*;
use vstd::string::*;

use crate::text::{replace_char, replace_char_with};

verus! {

/// The script's text for the icon at `icon_path`: resource id 1 (the one the
/// shell shows) of type `ICON`, naming the file as a C-style string literal,
/// so every backslash of a Windows path is doubled.
pub open spec fn icon_script_text(icon_path: Seq<char>) -> Seq<char> {
    "1 ICON \""@ + replace_char(icon_path, '\\', "\\\\"@) + "\"\n"@
}

/// The resource script naming the icon at `icon_path`.
pub fn icon_resource_script(icon_path: &str) -> (r: String)
    ensures
        r@ == icon_script_text(icon_path@),
{
    let escaped = replace_char_with(icon_path, '\\', "\\\\");
    let mut script = String::from_str("1 ICON \"");
    script.append(escaped.as_str());
    script.append("\"\n");
    script
}

} // verus!
