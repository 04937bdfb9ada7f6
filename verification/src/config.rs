//! The settings document: its defaults, and the two values read from it.

use vstd::prelude::*;
use crate::paths::text_of;

verus! {

#[verifier::external_type_specification]
#[verifier::external_body]
pub struct ExIni(ini::Ini);

#[verifier::external_type_specification]
#[verifier::external_body]
pub struct ExProperties(ini::Properties);

#[verifier::external_type_specification]
#[verifier::external_body]
pub struct ExParseError(ini::ParseError);

/// The sections of a document in the order in which it yields them: each
/// with its name (`None` for the general section) and its properties.
pub uninterp spec fn ini_sections(doc: ini::Ini) -> Seq<
    (Option<Seq<char>>, Seq<(Seq<char>, Seq<char>)>),
>;

/// The key-value pairs of one section, in the order in which it yields them.
pub uninterp spec fn properties_entries(props: ini::Properties) -> Seq<(Seq<char>, Seq<char>)>;

/// The sections that the parser reads from `text` with its default options,
/// or `None` where it rejects the text.
pub uninterp spec fn ini_parse(text: Seq<char>) -> Option<
    Seq<(Option<Seq<char>>, Seq<(Seq<char>, Seq<char>)>)>,
>;

/// The value of the first pair of `entries`, from index `from` on, whose key
/// is `key`.
pub open spec fn value_from(entries: Seq<(Seq<char>, Seq<char>)>, key: Seq<char>, from: int)
    -> Option<Seq<char>>
    decreases entries.len() - from,
{
    if from < 0 || from >= entries.len() {
        None
    } else if entries[from].0 == key {
        Some(entries[from].1)
    } else {
        value_from(entries, key, from + 1)
    }
}

/// The value of the first pair of `entries` whose key is `key`.
pub open spec fn first_value(entries: Seq<(Seq<char>, Seq<char>)>, key: Seq<char>) -> Option<
    Seq<char>,
> {
    value_from(entries, key, 0)
}

/// The index of the first section, from index `from` on, that is named
/// `name`.
pub open spec fn section_from(
    sections: Seq<(Option<Seq<char>>, Seq<(Seq<char>, Seq<char>)>)>,
    name: Seq<char>,
    from: int,
) -> Option<int>
    decreases sections.len() - from,
{
    if from < 0 || from >= sections.len() {
        None
    } else if sections[from].0 == Some(name) {
        Some(from)
    } else {
        section_from(sections, name, from + 1)
    }
}

/// The properties of the first section that is named `name`.
pub open spec fn first_section(
    sections: Seq<(Option<Seq<char>>, Seq<(Seq<char>, Seq<char>)>)>,
    name: Seq<char>,
) -> Option<Seq<(Seq<char>, Seq<char>)>> {
    match section_from(sections, name, 0) {
        Some(at) => Some(sections[at].1),
        None => None,
    }
}

/// The sections after a pair is added under `name`: at the end of the first
/// section of that name, or in a new last section where there is none.
pub open spec fn with_property(
    sections: Seq<(Option<Seq<char>>, Seq<(Seq<char>, Seq<char>)>)>,
    name: Seq<char>,
    key: Seq<char>,
    value: Seq<char>,
) -> Seq<(Option<Seq<char>>, Seq<(Seq<char>, Seq<char>)>)> {
    match section_from(sections, name, 0) {
        Some(at) => sections.update(at, (sections[at].0, sections[at].1.push((key, value)))),
        None => sections.push((Some(name), seq![(key, value)])),
    }
}

/// `Ini::new`.
///
/// Trusted: a new document holds the general section alone, and that section
/// is empty.
#[verifier::external_body]
fn new_document() -> (doc: ini::Ini)
    ensures
        ini_sections(doc) == seq![(None::<Seq<char>>, Seq::<(Seq<char>, Seq<char>)>::empty())],
{
    ini::Ini::new()
}

/// `Ini::with_section` and then `SectionSetter::set`.
///
/// Trusted, for a key that the section does not hold yet: the pair goes to
/// the end of the first section of that name, and into a new last section
/// where the document has none of that name.
#[verifier::external_body]
fn set_property(doc: &mut ini::Ini, name: &str, key: &str, value: &str)
    requires
        first_section(ini_sections(*old(doc)), name@) matches Some(entries) ==> first_value(
            entries,
            key@,
        ) is None,
    ensures
        ini_sections(*final(doc)) == with_property(ini_sections(*old(doc)), name@, key@, value@),
{
    doc.with_section(Some(name)).set(key, value);
}

/// How the lines of a settings document end when it is turned into text.
#[derive(Clone, Copy, Debug, PartialEq, Eq, Structural)]
pub enum LineEnding {
    /// A line feed.
    Lf,
    /// A carriage return and a line feed.
    CrLf,
}

/// The text that the writer gives for a document of these sections, with
/// its default escaping and `=` between key and value. The lines end in a
/// carriage return and a line feed where `crlf` holds, in a line feed alone
/// where it does not.
pub uninterp spec fn ini_render(
    sections: Seq<(Option<Seq<char>>, Seq<(Seq<char>, Seq<char>)>)>,
    crlf: bool,
) -> Seq<char>;

/// `Ini::write_to_opt` into a vector, with the given line separator and the
/// other options at their defaults, and the bytes read as UTF-8.
///
/// Trusted: writing into a vector cannot fail and gives valid UTF-8, and the
/// text depends on the sections and the line separator alone.
#[verifier::external_body]
fn render_document(doc: &ini::Ini, ending: LineEnding) -> (r: Option<String>)
    ensures
        r is Some,
        r matches Some(text) ==> text@ == ini_render(ini_sections(*doc), ending is CrLf),
{
    let line_separator = match ending {
        LineEnding::Lf => ini::LineSeparator::CR,
        LineEnding::CrLf => ini::LineSeparator::CRLF,
    };
    let options = ini::WriteOption { line_separator, ..Default::default() };
    let mut bytes: Vec<u8> = Vec::new();
    doc.write_to_opt(&mut bytes, options).ok()?;
    String::from_utf8(bytes).ok()
}

/// `Ini::load_from_str`.
///
/// Trusted: whether the text is accepted, and the sections read from it,
/// depend on the text alone.
#[verifier::external_body]
fn parse_document(text: &str) -> (r: Result<ini::Ini, ini::ParseError>)
    ensures
        match r {
            Ok(doc) => ini_parse(text@) == Some(ini_sections(doc)),
            Err(_) => ini_parse(text@) is None,
        },
{
    ini::Ini::load_from_str(text)
}

/// `Ini::section`.
///
/// Trusted: the call finds the first section of the given name.
#[verifier::external_body]
fn find_section<'a>(doc: &'a ini::Ini, name: &str) -> (r: Option<&'a ini::Properties>)
    ensures
        match r {
            Some(props) => first_section(ini_sections(*doc), name@) == Some(
                properties_entries(*props),
            ),
            None => first_section(ini_sections(*doc), name@) is None,
        },
{
    doc.section(Some(name))
}

/// `Properties::get`.
///
/// Trusted: the call finds the first value stored under the key.
#[verifier::external_body]
fn property_value<'a>(props: &'a ini::Properties, key: &str) -> (r: Option<&'a str>)
    ensures
        match r {
            Some(value) => first_value(properties_entries(*props), key@) == Some(value@),
            None => first_value(properties_entries(*props), key@) is None,
        },
{
    props.get(key)
}

/// The settings of one installation.
#[derive(Debug)]
pub struct Config {
    /// The command line of the application to run: a program and,
    /// separated by white space, its arguments.
    pub app_path: String,
    /// Where the run log is kept.
    pub output_path: String,
}

/// What a `Config` holds, as plain text.
pub struct ConfigView {
    pub app_path: Seq<char>,
    pub output_path: Seq<char>,
}

impl View for Config {
    type V = ConfigView;

    open spec fn view(&self) -> ConfigView {
        ConfigView { app_path: self.app_path@, output_path: self.output_path@ }
    }
}

/// Why no settings could be had.
#[derive(Clone, Copy, Debug, PartialEq, Eq, Structural)]
pub enum ConfigError {
    /// The default document could not be produced.
    NotCreated,
    /// The text is no settings document at all.
    Unreadable,
    /// The document has no section for this program.
    NoSection,
    /// The section does not say which application to run.
    NoAppPath,
    /// The section does not say where the run log is kept.
    NoOutputPath,
}

impl ConfigError {
    /// The line that the program's log gets for this error.
    pub open spec fn spec_message(self) -> Seq<char> {
        match self {
            ConfigError::NotCreated => "Failed to create default configuration file"@,
            ConfigError::Unreadable => "Failed to read configuration file"@,
            ConfigError::NoSection => "Invalid configuration file"@,
            ConfigError::NoAppPath => "Invalid configuration file: app_path is missing"@,
            ConfigError::NoOutputPath => "Invalid configuration file: output_path is missing"@,
        }
    }

    /// The line that the program's log gets for this error.
    pub fn message(&self) -> (r: &'static str)
        ensures
            r@ == self.spec_message(),
    {
        match self {
            ConfigError::NotCreated => "Failed to create default configuration file",
            ConfigError::Unreadable => "Failed to read configuration file",
            ConfigError::NoSection => "Invalid configuration file",
            ConfigError::NoAppPath => "Invalid configuration file: app_path is missing",
            ConfigError::NoOutputPath => "Invalid configuration file: output_path is missing",
        }
    }
}

/// The name of the one section that is read.
pub open spec fn section_name() -> Seq<char> {
    "AppTimer"@
}

/// The key of the command line.
pub open spec fn app_path_key() -> Seq<char> {
    "app_path"@
}

/// The key of the run log's path.
pub open spec fn output_path_key() -> Seq<char> {
    "output_path"@
}

/// The settings that a document of these sections holds: both values as they
/// stand under the first section of this program's name, each the first of
/// its key.
pub open spec fn spec_config(
    sections: Seq<(Option<Seq<char>>, Seq<(Seq<char>, Seq<char>)>)>,
) -> Result<ConfigView, ConfigError> {
    match first_section(sections, section_name()) {
        None => Err(ConfigError::NoSection),
        Some(entries) => match first_value(entries, app_path_key()) {
            None => Err(ConfigError::NoAppPath),
            Some(app_path) => match first_value(entries, output_path_key()) {
                None => Err(ConfigError::NoOutputPath),
                Some(output_path) => Ok(ConfigView { app_path, output_path }),
            },
        },
    }
}

/// The settings that a text holds.
pub open spec fn spec_parse_config(text: Seq<char>) -> Result<ConfigView, ConfigError> {
    match ini_parse(text) {
        None => Err(ConfigError::Unreadable),
        Some(sections) => spec_config(sections),
    }
}

/// Whether `r` is the outcome `expected`, error for error and text for text.
pub open spec fn agrees(r: Result<Config, ConfigError>, expected: Result<ConfigView, ConfigError>)
    -> bool {
    match r {
        Ok(config) => expected == Ok::<ConfigView, ConfigError>(config@),
        Err(e) => expected == Err::<ConfigView, ConfigError>(e),
    }
}

/// Reads the two settings from a parsed document.
pub fn read_config(doc: &ini::Ini) -> (r: Result<Config, ConfigError>)
    ensures
        agrees(r, spec_config(ini_sections(*doc))),
{
    match find_section(doc, "AppTimer") {
        None => Err(ConfigError::NoSection),
        Some(props) => match property_value(props, "app_path") {
            None => Err(ConfigError::NoAppPath),
            Some(app_path) => match property_value(props, "output_path") {
                None => Err(ConfigError::NoOutputPath),
                Some(output_path) => Ok(
                    Config { app_path: app_path.to_owned(), output_path: output_path.to_owned() },
                ),
            },
        },
    }
}

/// Reads the two settings from the text of a settings document. The values
/// come out as the parser read them, with nothing trimmed or changed.
pub fn parse_config(text: &str) -> (r: Result<Config, ConfigError>)
    ensures
        agrees(r, spec_parse_config(text@)),
{
    match parse_document(text) {
        Err(_) => Err(ConfigError::Unreadable),
        Ok(doc) => read_config(&doc),
    }
}

/// The command line that a new settings document proposes: a text editor
/// opened on the settings document itself.
pub open spec fn spec_default_app_path(config_path: Seq<char>) -> Seq<char> {
    "C:\\Windows\\system32\\notepad.exe "@ + config_path
}

/// The command line that a new settings document proposes.
pub fn default_app_path(config_path: &str) -> (r: String)
    ensures
        r@ == spec_default_app_path(config_path@),
{
    let mut line = "C:\\Windows\\system32\\notepad.exe ".to_owned();
    line.append(config_path);
    line
}

/// The sections of the default document for the given two values.
pub open spec fn default_sections(app_path: Seq<char>, output_path: Seq<char>) -> Seq<
    (Option<Seq<char>>, Seq<(Seq<char>, Seq<char>)>),
> {
    seq![
        (None::<Seq<char>>, Seq::<(Seq<char>, Seq<char>)>::empty()),
        (
            Some(section_name()),
            seq![(app_path_key(), app_path), (output_path_key(), output_path)],
        ),
    ]
}

proof fn keys_differ()
    ensures
        app_path_key() != output_path_key(),
{
    reveal_strlit("app_path");
    reveal_strlit("output_path");
    assert(app_path_key().len() != output_path_key().len());
}

/// The default document: an empty general section, and this program's
/// section with the two values.
pub fn default_document(app_path: &str, output_path: &str) -> (doc: ini::Ini)
    ensures
        ini_sections(doc) == default_sections(app_path@, output_path@),
{
    let mut doc = new_document();
    let ghost empty = ini_sections(doc);
    assert(section_from(empty, section_name(), 0) is None) by {
        assert(section_from(empty, section_name(), 1) is None);
    }
    set_property(&mut doc, "AppTimer", "app_path", app_path);
    let ghost one = ini_sections(doc);
    assert(one =~= seq![
        (None::<Seq<char>>, Seq::<(Seq<char>, Seq<char>)>::empty()),
        (Some(section_name()), seq![(app_path_key(), app_path@)]),
    ]);
    assert(section_from(one, section_name(), 0) == Some(1int)) by {
        assert(section_from(one, section_name(), 1) == Some(1int));
    }
    assert(first_value(one[1].1, output_path_key()) is None) by {
        keys_differ();
        assert(value_from(one[1].1, output_path_key(), 1) is None);
    }
    set_property(&mut doc, "AppTimer", "output_path", output_path);
    assert(one[1].1.push((output_path_key(), output_path@)) =~= seq![
        (app_path_key(), app_path@),
        (output_path_key(), output_path@),
    ]);
    assert(ini_sections(doc) =~= default_sections(app_path@, output_path@));
    doc
}

/// The default document, read back, gives the two values that it was made
/// from.
pub proof fn defaults_read_back(app_path: Seq<char>, output_path: Seq<char>)
    ensures
        spec_config(default_sections(app_path, output_path)) == Ok::<ConfigView, ConfigError>(
            ConfigView { app_path, output_path },
        ),
{
    let sections = default_sections(app_path, output_path);
    assert(section_from(sections, section_name(), 0) == Some(1int)) by {
        assert(section_from(sections, section_name(), 1) == Some(1int));
    }
    let entries = sections[1].1;
    assert(first_value(entries, app_path_key()) == Some(app_path));
    assert(first_value(entries, output_path_key()) == Some(output_path)) by {
        keys_differ();
        assert(value_from(entries, output_path_key(), 1) == Some(output_path));
    }
}

/// `text` without the byte-order mark that may stand at its start.
pub open spec fn without_bom(text: Seq<char>) -> Seq<char> {
    if text.len() > 0 && text[0] == '\u{feff}' {
        text.skip(1)
    } else {
        text
    }
}

/// `text` without the byte-order mark that may stand at its start.
pub fn strip_bom(text: &str) -> (r: &str)
    ensures
        r@ == without_bom(text@),
{
    let n = text.unicode_len();
    if n > 0 && text.get_char(0) == '\u{feff}' {
        text.substring_char(1, n)
    } else {
        text
    }
}

/// What loading the settings came to.
#[derive(Debug)]
pub struct Loaded {
    /// The text of a new settings document, which the caller has to store
    /// where the settings are kept; `None` where a document existed, or
    /// where none could be produced.
    pub created: Option<String>,
    /// The settings, or why there are none.
    pub config: Result<Config, ConfigError>,
}

/// The settings of an installation whose settings document holds `text`.
pub open spec fn spec_existing(text: Seq<char>) -> Result<ConfigView, ConfigError> {
    spec_parse_config(without_bom(text))
}

/// The settings of a new installation, for which the text `rendered` was
/// produced, or none: they are read from the text as every later load of it
/// reads them.
pub open spec fn spec_created(rendered: Option<Seq<char>>) -> Result<ConfigView, ConfigError> {
    match rendered {
        Some(text) => spec_existing(text),
        None => Err(ConfigError::NotCreated),
    }
}

/// What a new installation is given is what every later load of the text
/// that was stored for it gives.
pub proof fn stored_text_loads_the_same(text: Seq<char>)
    ensures
        spec_created(Some(text)) == spec_existing(text),
{
}

/// Settles a new installation once its settings document has been turned
/// into text: the text is to be stored, and the settings are read from it
/// as they are from a document that existed.
pub fn settle_created(rendered: Option<String>) -> (r: Loaded)
    ensures
        text_of(r.created) == text_of(rendered),
        agrees(r.config, spec_created(text_of(rendered))),
{
    match rendered {
        Some(text) => {
            let config = parse_config(strip_bom(text.as_str()));
            Loaded { created: Some(text), config }
        },
        None => Loaded { created: None, config: Err(ConfigError::NotCreated) },
    }
}

/// The text of the default document for an installation whose settings are
/// kept at `config_path`: it proposes an editor opened on `config_path` as
/// the application, and `output_path` as the run log.
pub open spec fn spec_default_text(
    config_path: Seq<char>,
    output_path: Seq<char>,
    ending: LineEnding,
) -> Seq<char> {
    ini_render(
        default_sections(spec_default_app_path(config_path), output_path),
        ending is CrLf,
    )
}

/// Sets up a new installation: makes the default document for `config_path`
/// and `default_output_path`, turns it into text for the caller to store,
/// and reads the settings from that text.
pub fn create_config(config_path: &str, default_output_path: &str, ending: LineEnding) -> (r:
    Loaded)
    ensures
        r.created matches Some(text) && text@ == spec_default_text(
            config_path@,
            default_output_path@,
            ending,
        ),
        agrees(r.config, spec_created(text_of(r.created))),
{
    let app_path = default_app_path(config_path);
    let doc = default_document(app_path.as_str(), default_output_path);
    settle_created(render_document(&doc, ending))
}

/// Loads the settings. `existing` is the text of the settings document at
/// `config_path`, or `None` where there is no such file. Then the
/// installation is new: the default document is made, with lines that end in
/// a carriage return and a line feed, for the caller to store, and the
/// settings are read from its text.
pub fn load_config(config_path: &str, existing: Option<&str>, default_output_path: &str) -> (r:
    Loaded)
    ensures
        match existing {
            Some(text) => r.created is None && agrees(r.config, spec_existing(text@)),
            None => r.created matches Some(text) && text@ == spec_default_text(
                config_path@,
                default_output_path@,
                LineEnding::CrLf,
            ) && agrees(r.config, spec_existing(text@)),
        },
{
    match existing {
        Some(text) => Loaded { created: None, config: parse_config(strip_bom(text)) },
        None => create_config(config_path, default_output_path, LineEnding::CrLf),
    }
}

} // verus!
