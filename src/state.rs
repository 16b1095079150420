//! Settings, project documents, the catalog of recent projects, and the raw
//! fields of the "New Project" form.
use vstd::prelude::*;
use crate::decimal::{digits_only, dimension_of, keep_digits, parse_dimension};
use crate::document::{
    array_of, get_string, get_table, parse_document, parsed_document, str_of, string_entry,
    subtable, table_get,
};
use crate::elements::{unit_of, Dimensons, Measurement};

verus! {

/// Why the catalog could not be built.
#[derive(PartialEq, Eq, Structural, Clone, Copy, Debug)]
pub enum BuildError {
    /// The settings document does not parse, or `projects.recent` is absent
    /// or is not an array of strings.
    SettingsMalformed,
    /// Turning form fields into a project failed. Never produced: that
    /// conversion is total.
    PrimitiveCoercion,
}

/// The settings document, as text.
pub struct Settings {
    settings_toml: String,
}

impl View for Settings {
    type V = Seq<char>;

    closed spec fn view(&self) -> Seq<char> {
        self.settings_toml@
    }
}

/// The paths listed under `projects.recent` in the settings document `text`,
/// or `None` where the document does not parse or that entry is absent, not
/// an array, or holds an item that is not a string.
pub open spec fn recent_paths(text: Seq<char>) -> Option<Seq<Seq<char>>> {
    match parsed_document(text) {
        None => None,
        Some(doc) => match subtable(doc, "projects"@) {
            None => None,
            Some(projects) => match crate::document::lookup(projects, "recent"@) {
                None => None,
                Some(list) => match array_of(list) {
                    None => None,
                    Some(items) => if forall|i: int|
                        0 <= i < items.len() ==> (#[trigger] str_of(items[i])) is Some {
                        Some(items.map_values(|item: toml::Value| str_of(item)->0))
                    } else {
                        None
                    },
                },
            },
        },
    }
}

impl Settings {
    /// Holds the settings document `settings_toml`.
    pub fn new(settings_toml: String) -> (r: Settings)
        ensures
            r@ == settings_toml@,
    {
        Settings { settings_toml }
    }

    /// The text of the settings document.
    pub fn text(&self) -> (r: &str)
        ensures
            r@ == self@,
    {
        self.settings_toml.as_str()
    }

    /// The paths of the recent projects, in the order of the document.
    pub fn recent(&self) -> (r: Result<Vec<String>, BuildError>)
        ensures
            r is Err <==> recent_paths(self@) is None,
            r is Err ==> r == Err::<Vec<String>, BuildError>(BuildError::SettingsMalformed),
            r matches Ok(v) ==> v@.map_values(|s: String| s@) == recent_paths(self@)->0,
    {
        let doc = match parse_document(self.settings_toml.as_str()) {
            Ok(d) => d,
            Err(_) => return Err(BuildError::SettingsMalformed),
        };
        let projects = match get_table(&doc, "projects") {
            Some(t) => t,
            None => return Err(BuildError::SettingsMalformed),
        };
        let list = match table_get(projects, "recent") {
            Some(v) => v,
            None => return Err(BuildError::SettingsMalformed),
        };
        let items = match list.as_array() {
            Some(a) => a,
            None => return Err(BuildError::SettingsMalformed),
        };
        let ghost want = items@.map_values(|item: toml::Value| str_of(item)->0);
        let mut out: Vec<String> = Vec::new();
        let mut i: usize = 0;
        while i < items.len()
            invariant
                i <= items@.len(),
                parsed_document(self@) == Some(doc),
                subtable(doc, "projects"@) == Some(*projects),
                crate::document::lookup(*projects, "recent"@) == Some(*list),
                array_of(*list) == Some(items@),
                want == items@.map_values(|item: toml::Value| str_of(item)->0),
                forall|j: int| 0 <= j < i ==> (#[trigger] str_of(items@[j])) is Some,
                out@.len() == i,
                forall|j: int| 0 <= j < i ==> (#[trigger] out@[j])@ == want[j],
            decreases items@.len() - i,
        {
            match items[i].as_str() {
                Some(s) => {
                    out.push(s.to_owned());
                },
                None => {
                    return Err(BuildError::SettingsMalformed);
                },
            }
            i = i + 1;
        }
        assert(out@.map_values(|s: String| s@) =~= want);
        Ok(out)
    }
}

/// A field of the `[header]` table of a project document.
#[derive(PartialEq, Eq, Structural, Clone, Copy, Debug)]
pub enum HeaderField {
    Name,
    Venue,
    Height,
    Width,
}

impl HeaderField {
    /// The key of the field in the document.
    pub open spec fn spec_key(self) -> Seq<char> {
        match self {
            HeaderField::Name => "name"@,
            HeaderField::Venue => "venue"@,
            HeaderField::Height => "height"@,
            HeaderField::Width => "width"@,
        }
    }

    /// The key of the field in the document.
    pub fn key(&self) -> (r: &'static str)
        ensures
            r@ == self.spec_key(),
    {
        match self {
            HeaderField::Name => "name",
            HeaderField::Venue => "venue",
            HeaderField::Height => "height",
            HeaderField::Width => "width",
        }
    }
}

/// Why a project document was rejected.
#[derive(PartialEq, Eq, Structural, Clone, Copy, Debug)]
pub enum ParseError {
    /// The document is not a well-formed TOML table.
    MalformedDocument,
    /// The document has no `[header]` table.
    MissingHeader,
    /// A header field is absent or is not a string.
    MissingField(HeaderField),
}

/// The `[header]` table of the project document `text`, if it has one.
pub open spec fn header_of(text: Seq<char>) -> Option<toml::Table> {
    match parsed_document(text) {
        Some(doc) => subtable(doc, "header"@),
        None => None,
    }
}

/// The string under header field `f` of the project document `text`.
pub open spec fn header_text(text: Seq<char>, f: HeaderField) -> Option<Seq<char>> {
    match header_of(text) {
        Some(h) => string_entry(h, f.spec_key()),
        None => None,
    }
}

/// The first reason, checked in the order of the format, for which the project
/// document `text` is rejected; `None` where it is valid.
pub open spec fn parse_error(text: Seq<char>) -> Option<ParseError> {
    if parsed_document(text) is None {
        Some(ParseError::MalformedDocument)
    } else if header_of(text) is None {
        Some(ParseError::MissingHeader)
    } else if header_text(text, HeaderField::Name) is None {
        Some(ParseError::MissingField(HeaderField::Name))
    } else if header_text(text, HeaderField::Venue) is None {
        Some(ParseError::MissingField(HeaderField::Venue))
    } else if header_text(text, HeaderField::Height) is None {
        Some(ParseError::MissingField(HeaderField::Height))
    } else if header_text(text, HeaderField::Width) is None {
        Some(ParseError::MissingField(HeaderField::Width))
    } else {
        None
    }
}

/// A validated project: its header, where its document lies, and the document
/// itself, kept verbatim.
pub struct Project {
    pub name: String,
    pub venue: String,
    pub path: String,
    pub dimensions: Dimensons,
    pub raw_document: String,
}

/// `p` is the project read from the valid document `text` found at `path`:
/// header texts copied, width and height read as decimal numbers (0 where
/// unreadable), imperial units, and the document kept as it is.
pub open spec fn parsed_from(p: Project, path: Seq<char>, text: Seq<char>) -> bool {
    &&& p.name@ == header_text(text, HeaderField::Name)->0
    &&& p.venue@ == header_text(text, HeaderField::Venue)->0
    &&& p.path@ == path
    &&& p.dimensions == Dimensons {
        width: dimension_of(header_text(text, HeaderField::Width)->0),
        height: dimension_of(header_text(text, HeaderField::Height)->0),
        measurement: Measurement::Imperial,
    }
    &&& p.raw_document@ == text
}

/// Reads the string under header field `f` of `header`.
fn header_string(header: &toml::Table, f: HeaderField) -> (r: Result<String, ParseError>)
    ensures
        match r {
            Ok(s) => string_entry(*header, f.spec_key()) == Some(s@),
            Err(e) => string_entry(*header, f.spec_key()) is None && e == ParseError::MissingField(f),
        },
{
    match get_string(header, f.key()) {
        Some(s) => Ok(s),
        None => Err(ParseError::MissingField(f)),
    }
}

/// Parses the project document `text` found at `path`.
pub fn parse_project(path: &str, text: &str) -> (r: Result<Project, ParseError>)
    ensures
        match r {
            Ok(p) => parse_error(text@) is None && parsed_from(p, path@, text@),
            Err(e) => parse_error(text@) == Some(e),
        },
{
    let doc = match parse_document(text) {
        Ok(d) => d,
        Err(_) => return Err(ParseError::MalformedDocument),
    };
    let header = match get_table(&doc, "header") {
        Some(h) => h,
        None => return Err(ParseError::MissingHeader),
    };
    let name = header_string(header, HeaderField::Name)?;
    let venue = header_string(header, HeaderField::Venue)?;
    let height = header_string(header, HeaderField::Height)?;
    let width = header_string(header, HeaderField::Width)?;
    let dimensions = Dimensons {
        width: parse_dimension(width.as_str()),
        height: parse_dimension(height.as_str()),
        measurement: Measurement::Imperial,
    };
    Ok(Project { name, venue, path: path.to_owned(), dimensions, raw_document: text.to_owned() })
}

impl Project {
    /// The project in the document `contents` read from `path`; `None` where
    /// the document could not be read or is not a valid project document.
    pub fn try_from_path(path: &str, contents: Option<&str>) -> (r: Option<Project>)
        ensures
            match r {
                Some(p) => contents matches Some(t) && parse_error(t@) is None
                    && parsed_from(p, path@, t@),
                None => contents matches Some(t) ==> parse_error(t@) is Some,
            },
    {
        match contents {
            Some(text) => match parse_project(path, text) {
                Ok(p) => Some(p),
                Err(_) => None,
            },
            None => None,
        }
    }
}

/// A recent entry: its path, and the text read from it where that succeeded.
pub type RecentEntry = (Seq<char>, Option<Seq<char>>);

/// The entry is read and holds a valid project document.
pub open spec fn loadable(entry: RecentEntry) -> bool {
    entry.1 is Some && parse_error(entry.1->0) is None
}

/// The recent entries that `paths` and the texts read from them make: the
/// `i`-th path with the `i`-th text, or with none where there is no `i`-th
/// text or it is `None`.
pub open spec fn recent_entries(paths: Seq<Seq<char>>, contents: Seq<Option<String>>) -> Seq<
    RecentEntry,
> {
    Seq::new(
        paths.len(),
        |i: int|
            (paths[i], if i < contents.len() && contents[i] is Some {
                Some(contents[i]->0@)
            } else {
                None
            }),
    )
}

/// The entries of `entries` that are loadable, in their order.
pub open spec fn loadable_entries(entries: Seq<RecentEntry>) -> Seq<RecentEntry> {
    entries.filter(|e: RecentEntry| loadable(e))
}

/// `ps` is the catalog of `entries`: one project for each loadable entry, read
/// from it, in the order of the entries; the others are left out.
pub open spec fn is_catalog_of(ps: Seq<Project>, entries: Seq<RecentEntry>) -> bool {
    let kept = loadable_entries(entries);
    &&& ps.len() == kept.len()
    &&& forall|i: int|
        0 <= i < ps.len() ==> parsed_from(#[trigger] ps[i], kept[i].0, kept[i].1->0)
}

/// The catalog of known projects, in the order of the settings document, with
/// projects created since appended at the end.
pub struct Projects {
    /// The projects of the catalog.
    pub projects: Vec<Project>,
}

impl Projects {
    /// Builds the catalog from the settings: `contents[i]` is the text read
    /// from the `i`-th recent path, `None` where it could not be read. Entries
    /// that cannot be read or parsed are left out.
    pub fn new(settings: &Settings, contents: &Vec<Option<String>>) -> (r: Result<
        Projects,
        BuildError,
    >)
        ensures
            r is Err <==> recent_paths(settings@) is None,
            r is Err ==> r == Err::<Projects, BuildError>(BuildError::SettingsMalformed),
            r matches Ok(c) ==> is_catalog_of(
                c.projects@,
                recent_entries(recent_paths(settings@)->0, contents@),
            ),
    {
        let paths = settings.recent()?;
        let ghost entries = recent_entries(recent_paths(settings@)->0, contents@);
        let mut out: Vec<Project> = Vec::new();
        let mut i: usize = 0;
        while i < paths.len()
            invariant
                i <= paths@.len(),
                entries.len() == paths@.len(),
                forall|j: int| 0 <= j < paths@.len() ==> (#[trigger] entries[j]).0 == paths@[j]@,
                forall|j: int|
                    0 <= j < paths@.len() ==> (#[trigger] entries[j]).1 == (if j < contents@.len()
                        && contents@[j] is Some {
                        Some(contents@[j]->0@)
                    } else {
                        None
                    }),
                is_catalog_of(out@, entries.subrange(0, i as int)),
            decreases paths@.len() - i,
        {
            let text: Option<&str> = if i < contents.len() {
                match &contents[i] {
                    Some(t) => Some(t.as_str()),
                    None => None,
                }
            } else {
                None
            };
            let ghost before = entries.subrange(0, i as int);
            let ghost e = entries[i as int];
            proof {
                assert(entries.subrange(0, i as int + 1) == before.push(e));
                before.lemma_filter_push(e, |e: RecentEntry| loadable(e));
            }
            match Project::try_from_path(paths[i].as_str(), text) {
                Some(p) => {
                    let ghost old_out = out@;
                    out.push(p);
                    proof {
                        let kept = loadable_entries(entries.subrange(0, i as int + 1));
                        assert forall|k: int| 0 <= k < out@.len() implies parsed_from(
                            #[trigger] out@[k],
                            kept[k].0,
                            kept[k].1->0,
                        ) by {
                            if k < old_out.len() {
                                assert(out@[k] == old_out[k]);
                            }
                        }
                    }
                },
                None => {},
            }
            i = i + 1;
        }
        proof {
            assert(entries.subrange(0, paths@.len() as int) == entries);
        }
        Ok(Projects { projects: out })
    }

    /// An empty catalog.
    pub fn empty() -> (r: Projects)
        ensures
            r.projects@.len() == 0,
    {
        Projects { projects: Vec::new() }
    }

    /// The number of projects in the catalog.
    pub fn len(&self) -> (r: usize)
        ensures
            r == self.projects@.len(),
    {
        self.projects.len()
    }

    /// Whether the catalog holds no project.
    pub fn is_empty(&self) -> (r: bool)
        ensures
            r == (self.projects@.len() == 0),
    {
        self.projects.len() == 0
    }

    /// The project at position `index`.
    pub fn get(&self, index: usize) -> (r: &Project)
        requires
            index < self.projects@.len(),
        ensures
            *r == self.projects@[index as int],
    {
        &self.projects[index]
    }

    /// Adds `project` at the end of the catalog.
    pub fn append(&mut self, project: Project)
        ensures
            final(self).projects@ == old(self).projects@.push(project),
    {
        self.projects.push(project);
    }

    /// Removes the project at position `index`; the others keep their order.
    pub fn remove(&mut self, index: usize) -> (r: Project)
        requires
            index < old(self).projects@.len(),
        ensures
            r == old(self).projects@[index as int],
            final(self).projects@ == old(self).projects@.remove(index as int),
    {
        self.projects.remove(index)
    }
}

/// The raw fields of the "New Project" form.
pub struct ProjectPrimitive {
    pub name: String,
    pub venue: String,
    pub path: String,
    pub width_text: String,
    pub height_text: String,
    pub unit_text: String,
}

/// The project that the form fields `p` and the text `document` read from
/// `p.path` (`None` where it could not be read) make.
pub open spec fn built_from(r: Project, p: ProjectPrimitive, document: Option<Seq<char>>) -> bool {
    &&& r.name == p.name
    &&& r.venue == p.venue
    &&& r.path == p.path
    &&& r.dimensions == Dimensons {
        width: dimension_of(p.width_text@),
        height: dimension_of(p.height_text@),
        measurement: unit_of(p.unit_text@),
    }
    &&& r.raw_document@ == match document {
        Some(d) => d,
        None => Seq::<char>::empty(),
    }
}

impl ProjectPrimitive {
    /// The form as it opens: empty texts, a 20 by 20 stage, in feet.
    pub fn new_blank_for_project_creator() -> (r: ProjectPrimitive)
        ensures
            r.name@.len() == 0,
            r.venue@.len() == 0,
            r.path@.len() == 0,
            r.width_text@ == seq!['2', '0'],
            r.height_text@ == seq!['2', '0'],
            r.unit_text@ == seq!['f', 't'],
    {
        let twenty = "20";
        let feet = "ft";
        proof {
            reveal_strlit("20");
            reveal_strlit("ft");
        }
        ProjectPrimitive {
            name: String::new(),
            venue: String::new(),
            path: String::new(),
            width_text: twenty.to_owned(),
            height_text: twenty.to_owned(),
            unit_text: feet.to_owned(),
        }
    }

    /// Removes from the width text every character that is not an ASCII digit.
    pub fn sanitize_width(&mut self)
        ensures
            final(self).width_text@ == digits_only(old(self).width_text@),
            final(self).name == old(self).name,
            final(self).venue == old(self).venue,
            final(self).path == old(self).path,
            final(self).height_text == old(self).height_text,
            final(self).unit_text == old(self).unit_text,
    {
        self.width_text = keep_digits(self.width_text.as_str());
    }

    /// Removes from the height text every character that is not an ASCII digit.
    pub fn sanitize_height(&mut self)
        ensures
            final(self).height_text@ == digits_only(old(self).height_text@),
            final(self).name == old(self).name,
            final(self).venue == old(self).venue,
            final(self).path == old(self).path,
            final(self).width_text == old(self).width_text,
            final(self).unit_text == old(self).unit_text,
    {
        self.height_text = keep_digits(self.height_text.as_str());
    }

    /// Turns the form into a project; `document` is the text read from the
    /// project's path, `None` where it could not be read. Never fails.
    pub fn try_build(self, document: Option<String>) -> (r: Result<Project, BuildError>)
        ensures
            r matches Ok(p) && built_from(p, self, match document {
                Some(d) => Some(d@),
                None => None,
            }),
    {
        let width = parse_dimension(self.width_text.as_str());
        let height = parse_dimension(self.height_text.as_str());
        let measurement = Measurement::from_unit_text(self.unit_text.as_str());
        let raw_document = match document {
            Some(d) => d,
            None => String::new(),
        };
        Ok(
            Project {
                name: self.name,
                venue: self.venue,
                path: self.path,
                dimensions: Dimensons { width, height, measurement },
                raw_document,
            },
        )
    }
}

} // verus!
