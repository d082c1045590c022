//! Settings.

use crate::identity;
use crate::model::Agent;
use crate::text;
use crate::text_map::TextMap;
use vstd::prelude::*;

verus! {

/// Settings of a repository.
#[derive(Debug)]
pub struct RepositoryConfig {
    /// Where there is a list, it is complete: no other agent takes part.
    pub reviewers: Option<Vec<Agent>>,
    pub ignore: bool,
}

/// The contents of a [`RepositoryConfig`].
#[verifier::ext_equal]
pub struct RepositoryConfigView {
    pub reviewers: Option<Seq<Agent>>,
    pub ignore: bool,
}

impl View for RepositoryConfig {
    type V = RepositoryConfigView;

    open spec fn view(&self) -> RepositoryConfigView {
        RepositoryConfigView {
            reviewers: match self.reviewers {
                Some(agents) => Some(agents@),
                None => None,
            },
            ignore: self.ignore,
        }
    }
}

impl DeepView for RepositoryConfig {
    type V = RepositoryConfigView;

    open spec fn deep_view(&self) -> RepositoryConfigView {
        self@
    }
}

impl Default for RepositoryConfig {
    fn default() -> (r: Self)
        ensures
            r@ == (RepositoryConfigView { reviewers: None, ignore: false }),
    {
        RepositoryConfig { reviewers: None, ignore: false }
    }
}

/// Settings of the application.
pub struct Config {
    pub poll_seconds: u64,
    pub discovery_seconds: u64,
    pub request_timeout_seconds: u64,
    pub settle_seconds: u64,
    pub gh_path: Option<String>,
    pub log_level: String,
    pub notifications: bool,
    pub repositories: TextMap<RepositoryConfig>,
}

/// The contents of a [`Config`].
#[verifier::ext_equal]
pub struct ConfigView {
    pub poll_seconds: u64,
    pub discovery_seconds: u64,
    pub request_timeout_seconds: u64,
    pub settle_seconds: u64,
    pub gh_path: Option<Seq<char>>,
    pub log_level: Seq<char>,
    pub notifications: bool,
    pub repositories: Map<Seq<char>, RepositoryConfigView>,
}

impl View for Config {
    type V = ConfigView;

    open spec fn view(&self) -> ConfigView {
        ConfigView {
            poll_seconds: self.poll_seconds,
            discovery_seconds: self.discovery_seconds,
            request_timeout_seconds: self.request_timeout_seconds,
            settle_seconds: self.settle_seconds,
            gh_path: self.gh_path.deep_view(),
            log_level: self.log_level@,
            notifications: self.notifications,
            repositories: self.repositories@,
        }
    }
}

impl ConfigView {
    /// The settings where none are given.
    pub open spec fn initial() -> ConfigView {
        ConfigView {
            poll_seconds: 30,
            discovery_seconds: 120,
            request_timeout_seconds: 20,
            settle_seconds: 30,
            gh_path: None,
            log_level: "info"@,
            notifications: true,
            repositories: Map::empty(),
        }
    }

    /// The agents that take part in a repository, where the settings name them.
    pub open spec fn expected_in(self, repo: Seq<char>) -> Option<Seq<Agent>> {
        if self.repositories.contains_key(repo) {
            self.repositories[repo].reviewers
        } else {
            None
        }
    }

    /// Whether a repository is ignored.
    pub open spec fn ignores(self, repo: Seq<char>) -> bool {
        self.repositories.contains_key(repo) && self.repositories[repo].ignore
    }

    /// What is wrong with the settings, if anything is.
    pub open spec fn fault(self, known_level: bool) -> Option<Seq<char>> {
        if self.poll_seconds < 5 {
            Some("poll_seconds must be at least 5"@)
        } else if self.discovery_seconds < self.poll_seconds {
            Some("discovery_seconds must be >= poll_seconds"@)
        } else if self.request_timeout_seconds < 1 || self.request_timeout_seconds > 120 {
            Some("request_timeout_seconds must be 1–120"@)
        } else if self.settle_seconds > 600 {
            Some("settle_seconds must be <= 600"@)
        } else if !known_level {
            Some("Invalid log_level"@)
        } else {
            None
        }
    }
}

impl Default for Config {
    fn default() -> (r: Self)
        ensures
            r@ == ConfigView::initial(),
    {
        Config {
            poll_seconds: 30,
            discovery_seconds: 120,
            request_timeout_seconds: 20,
            settle_seconds: 30,
            gh_path: None,
            log_level: "info".to_owned(),
            notifications: true,
            repositories: TextMap::new(),
        }
    }
}

/// The white space at the start of a text.
pub open spec fn leading_space(t: Seq<char>) -> Seq<char>
    decreases t.len(),
{
    if t.len() > 0 && text::is_space(t[0]) {
        seq![t[0]] + leading_space(t.drop_first())
    } else {
        Seq::empty()
    }
}

/// The part of a directive of a log filter that is being read.
#[derive(Clone, Copy, Debug, PartialEq, Eq, Structural)]
pub enum Part {
    Start,
    /// A level or a target: not yet known which.
    Name,
    Span,
    Field,
    /// Behind the fields of a span.
    Fields,
    /// Behind a span.
    Target,
    Level,
    /// Nothing more is read.
    Stopped,
}

impl Part {
    /// The part that is being read behind a byte: `[` opens a span, `{` its field, and `=` a
    /// level.
    pub open spec fn after(self, byte: u8) -> Part {
        match self {
            Part::Start => if byte == 91 { Part::Span } else { Part::Name },
            Part::Name => if byte == 61 {
                Part::Level
            } else if byte == 91 {
                Part::Span
            } else {
                Part::Name
            },
            Part::Span => if byte == 93 {
                Part::Target
            } else if byte == 123 {
                Part::Field
            } else {
                Part::Span
            },
            Part::Field => if byte == 125 { Part::Fields } else { Part::Field },
            Part::Fields => if byte == 93 { Part::Target } else { Part::Stopped },
            Part::Target => if byte == 61 { Part::Level } else { Part::Stopped },
            Part::Level => Part::Level,
            Part::Stopped => Part::Stopped,
        }
    }

    /// Whether a byte ends a part whose text is taken out of the directive.
    pub open spec fn is_cut_by(self, byte: u8) -> bool {
        self.after(byte) != self && (self == Part::Name || self == Part::Span || self == Part::Field)
    }

    fn step(self, byte: u8) -> (r: Part)
        ensures
            r == self.after(byte),
    {
        match self {
            Part::Start => if byte == 91 { Part::Span } else { Part::Name },
            Part::Name => if byte == 61 {
                Part::Level
            } else if byte == 91 {
                Part::Span
            } else {
                Part::Name
            },
            Part::Span => if byte == 93 {
                Part::Target
            } else if byte == 123 {
                Part::Field
            } else {
                Part::Span
            },
            Part::Field => if byte == 125 { Part::Fields } else { Part::Field },
            Part::Fields => if byte == 93 { Part::Target } else { Part::Stopped },
            Part::Target => if byte == 61 { Part::Level } else { Part::Stopped },
            Part::Level => Part::Level,
            Part::Stopped => Part::Stopped,
        }
    }
}

/// Whether a place in the bytes of a text stands between two characters.
pub open spec fn is_boundary(bytes: Seq<u8>, place: int) -> bool {
    0 <= place <= bytes.len() && (place == bytes.len() || !(0x80 <= bytes[place] < 0xc0))
}

/// Whether the rest of a directive of a log filter, from a byte on, is cut between characters.
/// Places are counted without the white space at the start of the directive, and the whole
/// directive is cut at them. The part that is being read starts at such a place.
pub open spec fn cut_cleanly_from(bytes: Seq<u8>, space: int, i: int, part: Part, start: int) -> bool
    decreases bytes.len() - i,
{
    if i >= bytes.len() {
        part == Part::Level ==> is_boundary(bytes, start)
    } else {
        let next = part.after(bytes[i]);
        &&& part.is_cut_by(bytes[i]) ==> is_boundary(bytes, start) && is_boundary(bytes, i - space)
        &&& cut_cleanly_from(
            bytes,
            space,
            i + 1,
            next,
            if next == part || part == Part::Start && next == Part::Name { start } else { i - space + 1 },
        )
    }
}

/// Whether a directive of a log filter is cut between characters.
pub open spec fn cut_cleanly(directive: Seq<char>) -> bool {
    let space = vstd::utf8::encode_utf8(leading_space(directive)).len() as int;
    cut_cleanly_from(vstd::utf8::encode_utf8(directive), space, space, Part::Start, 0)
}

/// Whether all directives of a log filter, parted by commas, are cut between characters.
pub open spec fn readable_level(level: Seq<char>) -> bool {
    forall|k: int|
        0 <= k < text::split_on(level, ',').len() ==> cut_cleanly(#[trigger] text::split_on(level, ',')[k])
}

/// Whether a text is a known log level: one that can be read, and that is taken for a filter.
pub open spec fn known_level(level: Seq<char>) -> bool {
    readable_level(level) && is_log_filter(level)
}

/// Whether `EnvFilter::try_new` takes a text for a filter of log records.
pub uninterp spec fn is_log_filter(level: Seq<char>) -> bool;

/// Trusted: `tracing_subscriber::EnvFilter::try_new`. Whether it succeeds depends on the
/// text alone. It finds the ends of the parts of a directive without the white space around it
/// and cuts the whole directive at those places, which panics where a character is cut in two;
/// such texts are left out.
#[verifier::external_body]
fn accepts_level(level: &str) -> (r: bool)
    requires
        readable_level(level@),
    ensures
        r == is_log_filter(level@),
{
    tracing_subscriber::EnvFilter::try_new(level).is_ok()
}

/// How many characters of white space a text starts with.
fn count_space(letters: &Vec<char>) -> (r: usize)
    ensures
        r <= letters@.len(),
        letters@.take(r as int) == leading_space(letters@),
{
    let mut i: usize = 0;
    assert(letters@.skip(0) =~= letters@);
    assert(letters@.take(0) + leading_space(letters@) =~= leading_space(letters@));
    while i < letters.len() && text::is_whitespace(letters[i])
        invariant
            i <= letters@.len(),
            letters@.take(i as int) + leading_space(letters@.skip(i as int)) == leading_space(letters@),
        decreases letters.len() - i,
    {
        let ghost rest = letters@.skip(i as int);
        assert(rest.drop_first() =~= letters@.skip(i + 1));
        assert(letters@.take(i + 1) =~= letters@.take(i as int) + seq![rest[0]]);
        assert(letters@.take(i as int) + (seq![rest[0]] + leading_space(letters@.skip(i + 1))) =~= letters@.take(i + 1)
            + leading_space(letters@.skip(i + 1)));
        i += 1;
    }
    assert(leading_space(letters@.skip(i as int)) =~= Seq::empty());
    assert(letters@.take(i as int) =~= leading_space(letters@));
    i
}

/// Whether a place in the bytes of a text stands between two characters.
fn stands_between(bytes: &[u8], place: usize) -> (r: bool)
    ensures
        r == is_boundary(bytes@, place as int),
{
    if place >= bytes.len() {
        return place == bytes.len();
    }
    !(0x80 <= bytes[place] && bytes[place] < 0xc0)
}

/// Whether a directive of a log filter is cut between characters.
fn cuts_cleanly(directive: &str) -> (r: bool)
    ensures
        r == cut_cleanly(directive@),
{
    let letters = text::chars(directive);
    let lead = text::slice(&letters, 0, count_space(&letters));
    assert(lead@ =~= leading_space(directive@));
    let space: usize = lead.as_str().as_bytes().len();
    let bytes = directive.as_bytes();
    let mut i: usize = space;
    let mut part = Part::Start;
    let mut start: usize = 0;
    while i < bytes.len()
        invariant
            bytes@ == vstd::utf8::encode_utf8(directive@),
            space == vstd::utf8::encode_utf8(leading_space(directive@)).len(),
            space <= i,
            cut_cleanly(directive@) == cut_cleanly_from(bytes@, space as int, i as int, part, start as int),
        decreases bytes.len() - i,
    {
        let byte: u8 = bytes[i];
        let next = part.step(byte);
        let cut = next != part && (part == Part::Name || part == Part::Span || part == Part::Field);
        if cut && !(stands_between(bytes, start) && stands_between(bytes, i - space)) {
            return false;
        }
        if !(next == part || part == Part::Start && next == Part::Name) {
            start = i - space + 1;
        }
        part = next;
        i += 1;
    }
    part != Part::Level || stands_between(bytes, start)
}

/// Whether all directives of a log filter are cut between characters.
fn reads_cleanly(level: &str) -> (r: bool)
    ensures
        r == readable_level(level@),
{
    let directives = text::split(level, ',');
    let ghost all = text::split_on(level@, ',');
    let mut k: usize = 0;
    while k < directives.len()
        invariant
            all == text::split_on(level@, ','),
            directives.deep_view() == all,
            k <= directives@.len(),
            forall|j: int| 0 <= j < k ==> cut_cleanly(#[trigger] all[j]),
        decreases directives.len() - k,
    {
        assert(all[k as int] == directives@[k as int]@);
        if !cuts_cleanly(&directives[k]) {
            return false;
        }
        k += 1;
    }
    true
}

/// A path below a directory.
pub open spec fn path_below(directory: Seq<char>, rest: Seq<char>) -> Seq<char> {
    if directory.len() == 0 || directory.last() == '/' {
        directory + rest
    } else {
        directory + "/"@ + rest
    }
}

/// A path below a directory.
pub fn join_path(directory: &str, rest: &str) -> (r: String)
    ensures
        r@ == path_below(directory@, rest@),
{
    let letters = text::chars(directory);
    if letters.len() == 0 || letters[letters.len() - 1] == '/' {
        text::concat(directory, rest)
    } else {
        text::concat3(directory, "/", rest)
    }
}

impl Config {
    /// Where a build keeps its data, given the home directory.
    pub fn directory(home: Option<&str>, dev: bool) -> (r: Result<String, String>)
        ensures
            match home {
                Some(home) => r is Ok && r->Ok_0@ == path_below(home@, identity::identity_of(dev).data_directory),
                None => r is Err && r->Err_0@ == "HOME is not set"@,
            },
    {
        match home {
            Some(home) => Ok(join_path(home, identity::data_directory(dev))),
            None => Err("HOME is not set".to_owned()),
        }
    }

    /// Checks settings, given whether the log level is a known one.
    pub fn check(&self, known_level: bool) -> (r: Result<(), String>)
        ensures
            match r {
                Ok(_) => self@.fault(known_level) is None,
                Err(message) => self@.fault(known_level) == Some(message@),
            },
    {
        if self.poll_seconds < 5 {
            return Err("poll_seconds must be at least 5".to_owned());
        }
        if self.discovery_seconds < self.poll_seconds {
            return Err("discovery_seconds must be >= poll_seconds".to_owned());
        }
        if self.request_timeout_seconds < 1 || self.request_timeout_seconds > 120 {
            return Err("request_timeout_seconds must be 1–120".to_owned());
        }
        if self.settle_seconds > 600 {
            return Err("settle_seconds must be <= 600".to_owned());
        }
        if !known_level {
            return Err("Invalid log_level".to_owned());
        }
        Ok(())
    }

    /// Checks settings that have been read. A log level that cannot be read is not a known one.
    pub fn load(self) -> (r: Result<Config, String>)
        ensures
            match r {
                Ok(config) => config@ == self@ && self@.fault(known_level(self@.log_level)) is None,
                Err(message) => self@.fault(known_level(self@.log_level)) == Some(message@),
            },
    {
        let known = reads_cleanly(&self.log_level) && accepts_level(&self.log_level);
        match self.check(known) {
            Ok(_) => Ok(self),
            Err(message) => Err(message),
        }
    }

    /// The agents that take part in a repository, where the settings name them.
    pub fn expected(&self, repo: &str) -> (r: Option<&[Agent]>)
        ensures
            crate::reviewers::expected_view(r) == self@.expected_in(repo@),
    {
        match self.repositories.get(repo) {
            Some(settings) => match &settings.reviewers {
                Some(agents) => Some(agents.as_slice()),
                None => None,
            },
            None => None,
        }
    }

    /// Whether a repository is ignored.
    pub fn ignores(&self, repo: &str) -> (r: bool)
        ensures
            r == self@.ignores(repo@),
    {
        match self.repositories.get(repo) {
            Some(settings) => settings.ignore,
            None => false,
        }
    }
}

/// The settings where none are given are sound, as long as their log level is.
pub proof fn initial_settings_are_sound()
    ensures
        ConfigView::initial().fault(true) is None,
{
}

} // verus!
