//! Track resolution: pulling the extension out of a path and dispatching it
//! to a decode strategy. Extensions the output backend decodes natively go
//! the pre-decoded way; extensions on the decoding library's supported list
//! go the tracker way; anything else is unsupported — a recoverable
//! condition, never a fatal one.

use vstd::prelude::*;

verus! {

/// The suffix of `s` after the last occurrence of `c`; all of `s` when `c`
/// does not occur.
pub open spec fn after_last(s: Seq<char>, c: char) -> Seq<char>
    decreases s.len(),
{
    if s.len() == 0 {
        s
    } else if s.last() == c {
        Seq::empty()
    } else {
        after_last(s.drop_last(), c).push(s.last())
    }
}

/// The file-name part of a path: what stands after the last separator.
pub open spec fn file_name_spec(p: Seq<char>) -> Seq<char> {
    after_last(p, '/')
}

/// The extension of a path: what stands after the last dot of the file
/// name, provided some dot stands past the name's first character. A name
/// without a dot, or with only a leading dot, has the empty extension.
pub open spec fn extension_spec(p: Seq<char>) -> Seq<char> {
    let name = file_name_spec(p);
    if exists|i: int| 1 <= i < name.len() && name[i] == '.' {
        after_last(name, '.')
    } else {
        Seq::empty()
    }
}

/// If `c` stands at `k` and nowhere later, the suffix after the last `c` is
/// everything past `k`.
proof fn lemma_after_last_found(s: Seq<char>, c: char, k: int)
    requires
        0 <= k < s.len(),
        s[k] == c,
        forall|j: int| k < j < s.len() ==> s[j] != c,
    ensures
        after_last(s, c) == s.skip(k + 1),
    decreases s.len(),
{
    if k == s.len() - 1 {
        assert(s.last() == c);
        assert(s.skip(k + 1) =~= Seq::<char>::empty());
    } else {
        assert(s.last() != c);
        lemma_after_last_found(s.drop_last(), c, k);
        assert(after_last(s, c) =~= s.skip(k + 1));
    }
}

/// If `c` does not occur in `s`, the suffix after the last `c` is `s`
/// itself.
proof fn lemma_after_last_absent(s: Seq<char>, c: char)
    requires
        forall|j: int| 0 <= j < s.len() ==> s[j] != c,
    ensures
        after_last(s, c) == s,
    decreases s.len(),
{
    if s.len() > 0 {
        lemma_after_last_absent(s.drop_last(), c);
        assert(after_last(s, c) =~= s);
    }
}

/// The index of the last occurrence of `c` in `s`, if any.
fn last_index_of(s: &str, c: char) -> (r: Option<usize>)
    ensures
        r matches Some(k) ==> 0 <= k < s@.len() && s@[k as int] == c && (forall|j: int|
            k < j < s@.len() ==> s@[j] != c),
        r is None ==> forall|j: int| 0 <= j < s@.len() ==> s@[j] != c,
{
    let n = s.unicode_len();
    let mut j = n;
    while j > 0
        invariant
            j <= n,
            n == s@.len(),
            forall|t: int| j <= t < n ==> s@[t] != c,
        decreases j,
    {
        j = j - 1;
        if s.get_char(j) == c {
            return Some(j);
        }
    }
    None
}

/// Pulls the extension out of `path`, per `extension_spec`: the text after
/// the last dot of the file name, empty when the name has no dot past its
/// first character.
pub fn extension_of(path: &str) -> (ext: String)
    ensures
        ext@ == extension_spec(path@),
{
    let n = path.unicode_len();
    let name_start = match last_index_of(path, '/') {
        Some(k) => k + 1,
        None => 0,
    };
    proof {
        if name_start > 0 {
            lemma_after_last_found(path@, '/', name_start - 1);
        } else {
            lemma_after_last_absent(path@, '/');
            assert(path@.skip(0) =~= path@);
        }
        assert(file_name_spec(path@) == path@.skip(name_start as int));
    }
    let ghost name = file_name_spec(path@);
    match last_index_of(path, '.') {
        Some(g) => {
            if g > name_start {
                proof {
                    let k = g - name_start;
                    assert(name[k] == '.');
                    assert(forall|j: int| k < j < name.len() ==> name[j] != '.');
                    lemma_after_last_found(name, '.', k);
                    assert(1 <= k < name.len() && name[k] == '.');
                    assert(name.skip(k + 1) =~= path@.skip(g + 1));
                }
                let ext = path.substring_char(g + 1, n);
                String::from_str(ext)
            } else {
                proof {
                    if exists|i: int| 1 <= i < name.len() && name[i] == '.' {
                        let i = choose|i: int| 1 <= i < name.len() && name[i] == '.';
                        assert(path@[name_start + i] == '.');
                        assert(false);
                    }
                }
                String::new()
            }
        },
        None => {
            proof {
                if exists|i: int| 1 <= i < name.len() && name[i] == '.' {
                    let i = choose|i: int| 1 <= i < name.len() && name[i] == '.';
                    assert(path@[name_start + i] == '.');
                    assert(false);
                }
            }
            String::new()
        },
    }
}

/// The decode strategy a queue entry dispatches to.
#[derive(Clone, Copy, PartialEq, Eq, Structural, Debug)]
pub enum TrackFormat {
    /// A format the output backend decodes natively, played pre-decoded.
    Direct,
    /// A tracker-module format on the decoding library's supported list.
    Tracker,
    /// Anything else; the entry is skipped, never fatal.
    Unsupported,
}

/// The extensions played the pre-decoded way.
pub open spec fn is_direct_ext(e: Seq<char>) -> bool {
    e == "wav"@ || e == "mp3"@ || e == "flac"@ || e == "ogg"@
}

/// Where an extension dispatches, given the supported tracker-extension
/// list: native formats first, then the tracker list, else unsupported.
pub open spec fn classify_spec(e: Seq<char>, formats: Seq<Seq<char>>) -> TrackFormat {
    if is_direct_ext(e) {
        TrackFormat::Direct
    } else if formats.contains(e) {
        TrackFormat::Tracker
    } else {
        TrackFormat::Unsupported
    }
}

/// Whether some entry of `v` reads the same as `x`.
fn contains_string(v: &Vec<String>, x: &String) -> (r: bool)
    ensures
        r == v.deep_view().contains(x@),
{
    let mut i: usize = 0;
    while i < v.len()
        invariant
            i <= v@.len(),
            forall|j: int| 0 <= j < i ==> v@[j]@ != x@,
        decreases v@.len() - i,
    {
        if v[i].eq(x) {
            proof {
                assert(v.deep_view()[i as int] == x@);
            }
            return true;
        }
        i = i + 1;
    }
    proof {
        assert(forall|j: int| 0 <= j < v.deep_view().len() ==> v.deep_view()[j] != x@);
    }
    false
}

/// Dispatches one extension against the supported tracker-extension list.
pub fn classify_extension(ext: &String, formats: &Vec<String>) -> (f: TrackFormat)
    ensures
        f == classify_spec(ext@, formats.deep_view()),
{
    let wav = String::from_str("wav");
    let mp3 = String::from_str("mp3");
    let flac = String::from_str("flac");
    let ogg = String::from_str("ogg");
    if *ext == wav || *ext == mp3 || *ext == flac || *ext == ogg {
        TrackFormat::Direct
    } else if contains_string(formats, ext) {
        TrackFormat::Tracker
    } else {
        TrackFormat::Unsupported
    }
}

/// Resolves a whole path: its extension, dispatched against the supported
/// tracker-extension list.
pub fn classify_path(path: &str, formats: &Vec<String>) -> (f: TrackFormat)
    ensures
        f == classify_spec(extension_spec(path@), formats.deep_view()),
{
    let ext = extension_of(path);
    classify_extension(&ext, formats)
}

/// A per-track failure. Every one of these is recoverable: the entry is
/// skipped and the playlist advances.
pub enum TrackError {
    /// The extension is neither a native format nor on the supported
    /// tracker list.
    UnsupportedFormat { path: String, extension: String },
    /// The path vanished between enqueue and play time.
    MissingFile { path: String },
    /// The source was there but malformed; the diagnostic carries the path
    /// and the extension.
    DecodeFailed { path: String, extension: String },
}

impl TrackError {
    /// The diagnostic line for this failure.
    pub open spec fn describe_spec(self) -> Seq<char> {
        match self {
            TrackError::UnsupportedFormat { path, extension } => "unsupported format '"@
                + extension@ + "' file "@ + path@,
            TrackError::MissingFile { path } => "path "@ + path@ + " does not exist"@,
            TrackError::DecodeFailed { path, extension } => "malformed source "@ + path@
                + " (extension '"@ + extension@ + "')"@,
        }
    }

    /// Renders the diagnostic line.
    pub fn describe(&self) -> (r: String)
        ensures
            r@ == self.describe_spec(),
    {
        match self {
            TrackError::UnsupportedFormat { path, extension } => {
                let mut r = String::from_str("unsupported format '");
                r.append(extension.as_str());
                r.append("' file ");
                r.append(path.as_str());
                r
            },
            TrackError::MissingFile { path } => {
                let mut r = String::from_str("path ");
                r.append(path.as_str());
                r.append(" does not exist");
                r
            },
            TrackError::DecodeFailed { path, extension } => {
                let mut r = String::from_str("malformed source ");
                r.append(path.as_str());
                r.append(" (extension '");
                r.append(extension.as_str());
                r.append("')");
                r
            },
        }
    }
}

/// Resolves a path to its decode strategy, or to the unsupported-format
/// error — naming the path and the extension — exactly when the extension
/// dispatches to neither strategy.
pub fn resolve_path(path: &String, formats: &Vec<String>) -> (r: Result<TrackFormat, TrackError>)
    ensures
        classify_spec(extension_spec(path@), formats.deep_view()) != TrackFormat::Unsupported
            <==> r is Ok,
        r matches Ok(f) ==> f == classify_spec(extension_spec(path@), formats.deep_view()),
        r matches Err(e) ==> (e matches TrackError::UnsupportedFormat { path: p, extension: x }
            && p@ == path@ && x@ == extension_spec(path@)),
{
    let ext = extension_of(path.as_str());
    match classify_extension(&ext, formats) {
        TrackFormat::Direct => Ok(TrackFormat::Direct),
        TrackFormat::Tracker => Ok(TrackFormat::Tracker),
        TrackFormat::Unsupported => Err(
            TrackError::UnsupportedFormat { path: path.clone(), extension: ext },
        ),
    }
}

} // verus!
