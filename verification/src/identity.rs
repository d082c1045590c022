//! The identity of the application. A development build is told from the released one in
//! every place at once, so both can be installed side by side.

use crate::text;
use vstd::prelude::*;

verus! {

/// The name of the released application.
pub const NAME: &'static str = "Gopher";

/// The heading of the released application.
pub const HEADER: &'static str = "Gopher";

/// Where the released application keeps its data, below the home directory.
pub const DATA_DIRECTORY: &'static str = ".config/gopher";

/// The text that quits the released application.
pub const QUIT: &'static str = "Quit Gopher";

/// The text that opens the released application.
pub const OPEN: &'static str = "Open Gopher";

/// The texts of a build.
pub struct IdentityView {
    pub name: Seq<char>,
    pub header: Seq<char>,
    pub data_directory: Seq<char>,
    pub quit: Seq<char>,
    pub open: Seq<char>,
}

/// The texts of a development build, or of the released application.
pub open spec fn identity_of(dev: bool) -> IdentityView {
    if dev {
        IdentityView {
            name: "Gopher Dev"@,
            header: "Gopher • Dev"@,
            data_directory: ".config/gopher-dev"@,
            quit: "Quit Gopher Dev"@,
            open: "Open Gopher Dev"@,
        }
    } else {
        IdentityView {
            name: NAME@,
            header: HEADER@,
            data_directory: DATA_DIRECTORY@,
            quit: QUIT@,
            open: OPEN@,
        }
    }
}

/// The name of a build.
pub fn name(dev: bool) -> (r: &'static str)
    ensures
        r@ == identity_of(dev).name,
{
    if dev {
        "Gopher Dev"
    } else {
        NAME
    }
}

/// The heading of a build.
pub fn header(dev: bool) -> (r: &'static str)
    ensures
        r@ == identity_of(dev).header,
{
    if dev {
        "Gopher • Dev"
    } else {
        HEADER
    }
}

/// Where a build keeps its data, below the home directory.
pub fn data_directory(dev: bool) -> (r: &'static str)
    ensures
        r@ == identity_of(dev).data_directory,
{
    if dev {
        ".config/gopher-dev"
    } else {
        DATA_DIRECTORY
    }
}

/// The text that quits a build.
pub fn quit(dev: bool) -> (r: &'static str)
    ensures
        r@ == identity_of(dev).quit,
{
    if dev {
        "Quit Gopher Dev"
    } else {
        QUIT
    }
}

/// The text that opens a build.
pub fn open(dev: bool) -> (r: &'static str)
    ensures
        r@ == identity_of(dev).open,
{
    if dev {
        "Open Gopher Dev"
    } else {
        OPEN
    }
}

/// The text that shows the version of a build. A development build also shows the commit
/// that it was made from and whether the working copy was changed.
pub open spec fn version_text(dev: bool, version: Seq<char>, revision: Seq<char>, status: Seq<char>) -> Seq<char> {
    if dev {
        identity_of(dev).name + " "@ + version + "\n"@ + revision + " · "@ + status
    } else {
        "Updates · "@ + identity_of(dev).name + " "@ + version
    }
}

/// The text that shows the version of a build.
pub fn version_label(dev: bool, version: &str, revision: &str, status: &str) -> (r: String)
    ensures
        r@ == version_text(dev, version@, revision@, status@),
{
    if dev {
        let named = text::concat3(name(dev), " ", version);
        let made = text::concat3(&named, "\n", revision);
        text::concat3(&made, " · ", status)
    } else {
        let named = text::concat("Updates · ", name(dev));
        text::concat3(&named, " ", version)
    }
}

/// A development build shares neither its name nor its data with the released application.
pub proof fn channels_are_separate()
    ensures
        identity_of(true).name != identity_of(false).name,
        identity_of(true).data_directory != identity_of(false).data_directory,
{
    reveal_strlit("Gopher Dev");
    reveal_strlit("Gopher");
    reveal_strlit(".config/gopher-dev");
    reveal_strlit(".config/gopher");
    assert("Gopher Dev"@.len() != "Gopher"@.len());
    assert(".config/gopher-dev"@.len() != ".config/gopher"@.len());
}

} // verus!
