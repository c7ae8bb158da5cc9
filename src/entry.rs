use vstd::prelude::*;

verus! {

/// How a stream is played: sound alone, or sound with pictures.
#[derive(Debug, Clone, Copy, PartialEq, Eq, Structural)]
pub enum Mode {
    AudioOnly,
    AudioVideo,
}

/// The word that names a mode in a catalog file.
pub open spec fn mode_word(m: Mode) -> Seq<char> {
    match m {
        Mode::AudioOnly => "audio"@,
        Mode::AudioVideo => "video"@,
    }
}

/// The mode that a catalog word names, if it names one.
pub open spec fn mode_of_word(w: Seq<char>) -> Option<Mode> {
    if w == mode_word(Mode::AudioOnly) {
        Some(Mode::AudioOnly)
    } else if w == mode_word(Mode::AudioVideo) {
        Some(Mode::AudioVideo)
    } else {
        None
    }
}

impl Mode {
    /// Reads a catalog word; any word but the two known ones is refused.
    pub fn parse(word: &str) -> (r: Option<Mode>)
        ensures
            r == mode_of_word(word@),
    {
        let w = String::from_str(word);
        let audio = String::from_str("audio");
        let video = String::from_str("video");
        proof {
            reveal_strlit("audio");
            reveal_strlit("video");
        }
        if w == audio {
            Some(Mode::AudioOnly)
        } else if w == video {
            Some(Mode::AudioVideo)
        } else {
            None
        }
    }
}

impl Mode {
    /// The catalog word for this mode, as shown in a listing.
    pub fn word(&self) -> (r: String)
        ensures
            r@ == mode_word(*self),
    {
        proof {
            reveal_strlit("audio");
            reveal_strlit("video");
        }
        match self {
            Mode::AudioOnly => String::from_str("audio"),
            Mode::AudioVideo => String::from_str("video"),
        }
    }
}

/// Reading a mode's own word gives the mode back.
pub proof fn mode_word_round_trip(m: Mode)
    ensures
        mode_of_word(mode_word(m)) == Some(m),
{
    assert(mode_word(Mode::AudioOnly) != mode_word(Mode::AudioVideo)) by {
        reveal_strlit("audio");
        reveal_strlit("video");
        assert(mode_word(Mode::AudioOnly)[0] != mode_word(Mode::AudioVideo)[0]);
    }
}

/// The field of a catalog record that a problem was found in.
#[derive(Debug, Clone, Copy, PartialEq, Eq, Structural)]
pub enum Field {
    Name,
    Url,
    Mode,
}

/// Why a catalog could not be turned into a directory.
#[derive(Debug, Clone, PartialEq, Eq)]
pub enum ConfigError {
    /// A record lacks a field.
    Missing(Field),
    /// A record holds an empty name or url.
    Empty(Field),
    /// A record's mode is neither of the known words; the word is kept.
    UnknownMode(String),
    /// Two records share this name.
    DuplicateName(String),
    /// The catalog holds no list of streams at all.
    NoStreams,
}

/// What a catalog record holds before it is checked.
#[derive(Debug, Clone)]
pub struct RawEntry {
    pub name: Option<String>,
    pub url: Option<String>,
    pub mode: Option<String>,
}

/// What a stream entry is: its name, its address and its mode.
pub struct EntryView {
    pub name: Seq<char>,
    pub url: Seq<char>,
    pub mode: Mode,
}

/// One playable stream. Its name and url are never empty, and nothing
/// changes them once the entry exists.
#[derive(Debug)]
pub struct StreamEntry {
    name: String,
    url: String,
    mode: Mode,
}

impl View for StreamEntry {
    type V = EntryView;

    closed spec fn view(&self) -> EntryView {
        EntryView { name: self.name@, url: self.url@, mode: self.mode }
    }
}

/// The check that an entry's fields must pass.
pub open spec fn entry_fields_ok(name: Seq<char>, url: Seq<char>) -> bool {
    name.len() > 0 && url.len() > 0
}

/// The outcome of checking a catalog record. The fields are looked at in
/// the order name, url, mode: first for presence, then name and url for
/// emptiness, then the mode word; the first problem found is the one
/// reported.
pub open spec fn check_raw(raw: RawEntry) -> Result<EntryView, ConfigError> {
    match (raw.name, raw.url, raw.mode) {
        (None, _, _) => Err(ConfigError::Missing(Field::Name)),
        (Some(_), None, _) => Err(ConfigError::Missing(Field::Url)),
        (Some(_), Some(_), None) => Err(ConfigError::Missing(Field::Mode)),
        (Some(n), Some(u), Some(m)) => if n@.len() == 0 {
            Err(ConfigError::Empty(Field::Name))
        } else if u@.len() == 0 {
            Err(ConfigError::Empty(Field::Url))
        } else {
            match mode_of_word(m@) {
                Some(mode) => Ok(EntryView { name: n@, url: u@, mode }),
                None => Err(ConfigError::UnknownMode(m)),
            }
        },
    }
}

/// An entry result seen through the entry's view.
pub open spec fn entry_result_view(r: Result<StreamEntry, ConfigError>) -> Result<
    EntryView,
    ConfigError,
> {
    match r {
        Ok(e) => Ok(e@),
        Err(x) => Err(x),
    }
}

pub open spec fn opt_view(o: Option<String>) -> Option<Seq<char>> {
    match o {
        Some(s) => Some(s@),
        None => None,
    }
}

impl StreamEntry {
    #[verifier::type_invariant]
    spec fn fields_ok(self) -> bool {
        entry_fields_ok(self.name@, self.url@)
    }

    /// Builds an entry; an empty name or url is refused.
    pub fn new(name: String, url: String, mode: Mode) -> (r: Result<StreamEntry, ConfigError>)
        ensures
            name@.len() == 0 ==> r == Err::<StreamEntry, ConfigError>(ConfigError::Empty(Field::Name)),
            name@.len() > 0 && url@.len() == 0 ==> r == Err::<StreamEntry, ConfigError>(ConfigError::Empty(Field::Url)),
            entry_fields_ok(name@, url@) ==> (r matches Ok(e) && e@ == (EntryView { name: name@, url: url@, mode })),
    {
        if name.as_str().is_empty() {
            return Err(ConfigError::Empty(Field::Name));
        }
        if url.as_str().is_empty() {
            return Err(ConfigError::Empty(Field::Url));
        }
        Ok(StreamEntry { name, url, mode })
    }

    /// Checks a catalog record; see `check_raw` for what is refused.
    pub fn from_raw(raw: &RawEntry) -> (r: Result<StreamEntry, ConfigError>)
        ensures
            entry_result_view(r) == check_raw(*raw),
    {
        let name = match &raw.name {
            Some(n) => n,
            None => return Err(ConfigError::Missing(Field::Name)),
        };
        let url = match &raw.url {
            Some(u) => u,
            None => return Err(ConfigError::Missing(Field::Url)),
        };
        let word = match &raw.mode {
            Some(m) => m,
            None => return Err(ConfigError::Missing(Field::Mode)),
        };
        if name.as_str().is_empty() {
            return Err(ConfigError::Empty(Field::Name));
        }
        if url.as_str().is_empty() {
            return Err(ConfigError::Empty(Field::Url));
        }
        match Mode::parse(word.as_str()) {
            Some(mode) => Ok(StreamEntry { name: name.clone(), url: url.clone(), mode }),
            None => Err(ConfigError::UnknownMode(word.clone())),
        }
    }

    /// The entry as shown in a listing: the name, then the mode and the url
    /// on lines of their own.
    pub fn describe(&self) -> (r: String)
        ensures
            r@ == self@.name + "\nmode: "@ + mode_word(self@.mode) + "\nstream url: '"@ + self@.url
                + "'"@,
    {
        let mut r = self.name.clone();
        r.append("\nmode: ");
        r.append(self.mode.word().as_str());
        r.append("\nstream url: '");
        r.append(self.url.as_str());
        r.append("'");
        r
    }

    pub fn name(&self) -> (r: &String)
        ensures
            r@ == self@.name,
            r@.len() > 0,
    {
        proof {
            use_type_invariant(self);
        }
        &self.name
    }

    pub fn url(&self) -> (r: &String)
        ensures
            r@ == self@.url,
            r@.len() > 0,
    {
        proof {
            use_type_invariant(self);
        }
        &self.url
    }

    pub fn mode(&self) -> (r: Mode)
        ensures
            r == self@.mode,
    {
        self.mode
    }
}

} // verus!
