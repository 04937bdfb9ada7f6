//! Where the program keeps its files, relative to the user's home directory.
//!
//! A location is a list of path components; the caller joins them with the
//! separator of its platform.

use vstd::prelude::*;
use crate::record::texts;

verus! {

/// A file or directory: the components below the user's home directory, or,
/// where no home directory is known, below the working directory.
#[derive(Debug)]
pub struct Location {
    /// The home directory, where one is known.
    pub home: Option<String>,
    /// The components below it, outermost first.
    pub parts: Vec<String>,
}

/// What a `Location` holds, as plain text.
pub struct LocationView {
    pub home: Option<Seq<char>>,
    pub parts: Seq<Seq<char>>,
}

impl View for Location {
    type V = LocationView;

    open spec fn view(&self) -> LocationView {
        LocationView { home: text_of(self.home), parts: texts(self.parts@) }
    }
}

/// The text of an optional string.
pub open spec fn text_of(s: Option<String>) -> Option<Seq<char>> {
    match s {
        Some(s) => Some(s@),
        None => None,
    }
}

/// The components of the program's own directory below the home directory.
pub open spec fn data_directory() -> Seq<Seq<char>> {
    seq!["AppData"@, "Roaming"@, "AppTimer"@]
}

/// The file `name` in the program's own directory, or in the working
/// directory where no home directory is known.
pub open spec fn spec_data_file(home: Option<Seq<char>>, name: Seq<char>) -> LocationView {
    match home {
        Some(_) => LocationView { home, parts: data_directory().push(name) },
        None => LocationView { home, parts: seq![name] },
    }
}

/// The program's own directory, which has to exist before anything is
/// written there; `None` where no home directory is known and the files go
/// to the working directory.
pub fn data_dir(home: Option<String>) -> (r: Option<Location>)
    ensures
        r is Some <==> home is Some,
        r matches Some(dir) ==> dir@ == (LocationView {
            home: text_of(home),
            parts: data_directory(),
        }),
{
    match home {
        Some(base) => {
            let mut parts: Vec<String> = Vec::new();
            parts.push("AppData".to_owned());
            parts.push("Roaming".to_owned());
            parts.push("AppTimer".to_owned());
            assert(texts(parts@) =~= data_directory());
            Some(Location { home: Some(base), parts })
        },
        None => None,
    }
}

fn data_file(home: Option<String>, name: &str) -> (r: Location)
    ensures
        r@ == spec_data_file(text_of(home), name@),
{
    let ghost base = text_of(home);
    match data_dir(home) {
        Some(dir) => {
            let mut parts = dir.parts;
            parts.push(name.to_owned());
            assert(texts(parts@) =~= data_directory().push(name@));
            Location { home: dir.home, parts }
        },
        None => {
            let mut parts: Vec<String> = Vec::new();
            parts.push(name.to_owned());
            assert(texts(parts@) =~= seq![name@]);
            Location { home: None, parts }
        },
    }
}

/// Where the settings document is kept.
pub fn config_file(home: Option<String>) -> (r: Location)
    ensures
        r@ == spec_data_file(text_of(home), "settings.ini"@),
{
    data_file(home, "settings.ini")
}

/// Where the program's own log is kept.
pub fn log_file(home: Option<String>) -> (r: Location)
    ensures
        r@ == spec_data_file(text_of(home), "AppTimer.log"@),
{
    data_file(home, "AppTimer.log")
}

/// Where a new settings document puts the run log: on the user's desktop,
/// or in the working directory where no home directory is known.
pub open spec fn spec_default_output_file(home: Option<Seq<char>>) -> LocationView {
    match home {
        Some(_) => LocationView { home, parts: seq!["Desktop"@, "AppTimer.csv"@] },
        None => LocationView { home, parts: seq!["AppTimer.csv"@] },
    }
}

/// Where a new settings document puts the run log.
pub fn default_output_file(home: Option<String>) -> (r: Location)
    ensures
        r@ == spec_default_output_file(text_of(home)),
{
    let mut parts: Vec<String> = Vec::new();
    if home.is_some() {
        parts.push("Desktop".to_owned());
    }
    parts.push("AppTimer.csv".to_owned());
    assert(home is Some ==> texts(parts@) =~= seq!["Desktop"@, "AppTimer.csv"@]);
    assert(home is None ==> texts(parts@) =~= seq!["AppTimer.csv"@]);
    Location { home, parts }
}

} // verus!
