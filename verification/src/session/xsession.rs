//! The session catalog: the built-in shell entry followed by the graphical
//! sessions that the desktop entries of a directory describe.

use vstd::prelude::*;
use vstd::string::*;
use crate::session::catalog::{default_shell, Session, SessionType, SessionView};
use crate::text::{ends_with, has_suffix, trim, trimmed};

verus! {

/// The parsed form of an INI text, of the crate `ini`.
#[verifier::external_type_specification]
#[verifier::external_body]
pub struct ExIni(ini::Ini);

/// The insertion-ordered map of the crate `indexmap`.
#[verifier::external_type_specification]
#[verifier::external_body]
#[verifier::reject_recursive_types(K)]
#[verifier::reject_recursive_types(V)]
#[verifier::reject_recursive_types(S)]
pub struct ExIndexMap<K, V, S>(indexmap::IndexMap<K, V, S>);

/// What `ini::Ini::load_from_str` makes of a text: nothing where the text is
/// no INI text, else what the parsed text holds.
pub uninterp spec fn ini_document(text: Seq<char>) -> Option<Map<(Seq<char>, Seq<char>), Seq<char>>>;

/// What a parsed INI text holds: for the name of a section and a key, the
/// value that a lookup of the key in that section finds.
pub uninterp spec fn ini_values(document: ini::Ini) -> Map<(Seq<char>, Seq<char>), Seq<char>>;

/// What a catalog under construction holds: its keys with their sessions, in order.
pub uninterp spec fn catalog_entries(sessions: indexmap::IndexMap<String, Session>) -> Seq<
    (Seq<char>, SessionView),
>;

/// Whether no key occurs twice among `entries`.
pub open spec fn distinct_keys(entries: Seq<(Seq<char>, SessionView)>) -> bool {
    forall|i: int, j: int|
        0 <= i < entries.len() && 0 <= j < entries.len() && #[trigger] entries[i].0
            == #[trigger] entries[j].0 ==> i == j
}

/// Whether `key` is the key of one of `entries`.
pub open spec fn has_key(entries: Seq<(Seq<char>, SessionView)>, key: Seq<char>) -> bool {
    exists|i: int| 0 <= i < entries.len() && #[trigger] entries[i].0 == key
}

/// A position at which `key` stands among `entries`.
pub open spec fn key_position(entries: Seq<(Seq<char>, SessionView)>, key: Seq<char>) -> int {
    choose|i: int| 0 <= i < entries.len() && #[trigger] entries[i].0 == key
}

/// `entries` after `value` was inserted under `key`: where the key is there
/// already, its session is replaced at its place; else the pair is added
/// behind the others.
pub open spec fn inserted(
    entries: Seq<(Seq<char>, SessionView)>,
    key: Seq<char>,
    value: SessionView,
) -> Seq<(Seq<char>, SessionView)> {
    if has_key(entries, key) {
        entries.update(key_position(entries, key), (key, value))
    } else {
        entries.push((key, value))
    }
}

/// Calls `ini::Ini::load_from_str`, which parses an INI text with the default
/// options and fails on a text that is none. The contract only names what it
/// returns.
#[verifier::external_body]
fn load_ini(text: &str) -> (document: Option<ini::Ini>)
    ensures
        match document {
            Some(parsed) => ini_document(text@) == Some(ini_values(parsed)),
            None => ini_document(text@) is None,
        },
{
    ini::Ini::load_from_str(text).ok()
}

/// Calls `ini::Ini::get_from`, which looks `key` up in the section named
/// `section` and returns its value, or nothing where the document has no such
/// section or the section no such key.
#[verifier::external_body]
fn ini_get(document: &ini::Ini, section: &str, key: &str) -> (value: Option<String>)
    ensures
        match value {
            Some(text) => ini_values(*document).contains_key((section@, key@)) && text@
                == ini_values(*document)[(section@, key@)],
            None => !ini_values(*document).contains_key((section@, key@)),
        },
{
    document.get_from(Some(section), key).map(|text| text.to_string())
}

/// Calls `indexmap::IndexMap::new`, which makes an empty map.
#[verifier::external_body]
fn new_catalog() -> (sessions: indexmap::IndexMap<String, Session>)
    ensures
        catalog_entries(sessions) == Seq::<(Seq<char>, SessionView)>::empty(),
{
    indexmap::IndexMap::new()
}

/// Calls `indexmap::IndexMap::insert`, which replaces the value of a key that
/// is there already, leaving the key at its place in the order, and else adds
/// the pair last in order. Its keys are distinct at all times.
#[verifier::external_body]
fn catalog_insert(sessions: &mut indexmap::IndexMap<String, Session>, key: String, value: Session)
    ensures
        catalog_entries(*final(sessions)) == inserted(catalog_entries(*old(sessions)), key@, value@),
        distinct_keys(catalog_entries(*final(sessions))),
{
    sessions.insert(key, value);
}

/// Calls `indexmap::IndexMap::into_values`, which hands the values out in
/// their order.
#[verifier::external_body]
fn catalog_values(sessions: indexmap::IndexMap<String, Session>) -> (values: Vec<Session>)
    ensures
        values@.len() == catalog_entries(sessions).len(),
        forall|i: int|
            0 <= i < values@.len() ==> (#[trigger] values@[i])@ == catalog_entries(sessions)[i].1,
{
    sessions.into_values().collect()
}

/// One entry of the descriptor directory: its file name and, where the file
/// could be read as text, what it holds.
#[derive(Clone, Debug, PartialEq, Eq)]
pub struct DesktopFile {
    pub name: String,
    pub content: Option<String>,
}

/// A directory entry as plain values.
pub struct DesktopFileView {
    pub name: Seq<char>,
    pub content: Option<Seq<char>>,
}

impl View for DesktopFile {
    type V = DesktopFileView;

    open spec fn view(&self) -> DesktopFileView {
        DesktopFileView {
            name: self.name@,
            content: match self.content {
                Some(text) => Some(text@),
                None => None,
            },
        }
    }
}

/// The directory entries as plain values.
pub open spec fn files_view(files: Seq<DesktopFile>) -> Seq<DesktopFileView> {
    Seq::new(files.len(), |i: int| files[i]@)
}

/// The sessions as plain values.
pub open spec fn sessions_view(sessions: Seq<Session>) -> Seq<SessionView> {
    Seq::new(sessions.len(), |i: int| sessions[i]@)
}

/// Whether a file name is that of a desktop entry: it has the extension
/// `desktop`, that is, it ends in `.desktop` and has something before it.
pub open spec fn is_desktop_name(name: Seq<char>) -> bool {
    has_suffix(name, ".desktop"@) && name.len() > 8
}

/// The value of a key of a desktop entry without the white space around it;
/// empty where the key is missing.
pub open spec fn entry_value(value: Option<Seq<char>>) -> Seq<char> {
    match value {
        Some(text) => trimmed(text),
        None => Seq::empty(),
    }
}

/// The session that a desktop entry with these values of `Name` and `Exec`
/// describes: none unless both are there and hold more than white space.
pub open spec fn entry_session(name: Option<Seq<char>>, command: Option<Seq<char>>) -> Option<
    SessionView,
> {
    if entry_value(name).len() == 0 || entry_value(command).len() == 0 {
        None
    } else {
        Some(
            SessionView {
                name: entry_value(name) + " (Xsession)"@,
                command: entry_value(command),
                session_type: SessionType::GraphicalSession,
            },
        )
    }
}

/// The value of `key` in the section `Desktop Entry` of a parsed INI text.
pub open spec fn desktop_key(document: Map<(Seq<char>, Seq<char>), Seq<char>>, key: Seq<char>) -> Option<
    Seq<char>,
> {
    if document.contains_key(("Desktop Entry"@, key)) {
        Some(document[("Desktop Entry"@, key)])
    } else {
        None
    }
}

/// The session that a directory entry describes, if it describes one: its
/// name is that of a desktop entry, it could be read, it is an INI text, and
/// its section `Desktop Entry` gives a name and a command.
pub open spec fn desktop_session(file: DesktopFileView) -> Option<SessionView> {
    if !is_desktop_name(file.name) {
        None
    } else {
        match file.content {
            None => None,
            Some(text) => match ini_document(text) {
                None => None,
                Some(document) => entry_session(
                    desktop_key(document, "Name"@),
                    desktop_key(document, "Exec"@),
                ),
            },
        }
    }
}

/// `entries` after the sessions of `files` were inserted, file by file, each
/// under its name. Files that describe no session leave the entries as they are.
pub open spec fn with_xsessions(
    entries: Seq<(Seq<char>, SessionView)>,
    files: Seq<DesktopFileView>,
) -> Seq<(Seq<char>, SessionView)>
    decreases files.len(),
{
    if files.len() == 0 {
        entries
    } else {
        let before = with_xsessions(entries, files.drop_last());
        match desktop_session(files.last()) {
            Some(session) => inserted(before, session.name, session),
            None => before,
        }
    }
}

/// The catalog of a descriptor directory: the built-in shell entry, then the
/// sessions of the directory's files.
pub open spec fn catalog(files: Seq<DesktopFileView>) -> Seq<SessionView> {
    with_xsessions(seq![(default_shell().name, default_shell())], files).map_values(
        |entry: (Seq<char>, SessionView)| entry.1,
    )
}

/// Tells whether a file name is that of a desktop entry.
pub fn is_desktop_entry(name: &str) -> (found: bool)
    ensures
        found == is_desktop_name(name@),
{
    proof {
        reveal_strlit(".desktop");
    }
    ends_with(name, ".desktop") && name.unicode_len() > 8
}

/// Makes the session that a desktop entry describes from the values of its
/// keys `Name` and `Exec`, each as it stands in the file or missing.
pub fn session_from_entry(name: Option<String>, command: Option<String>) -> (session: Option<Session>)
    ensures
        match session {
            Some(made) => entry_session(
                match name {
                    Some(text) => Some(text@),
                    None => None,
                },
                match command {
                    Some(text) => Some(text@),
                    None => None,
                },
            ) == Some(made@),
            None => entry_session(
                match name {
                    Some(text) => Some(text@),
                    None => None,
                },
                match command {
                    Some(text) => Some(text@),
                    None => None,
                },
            ) is None,
        },
{
    let name = match name {
        Some(text) => text,
        None => { return None; },
    };
    let command = match command {
        Some(text) => text,
        None => { return None; },
    };
    let kept_name = trim(name.as_str());
    let kept_command = trim(command.as_str());
    if kept_name.is_empty() || kept_command.is_empty() {
        return None;
    }
    Some(
        Session {
            name: String::from_str(kept_name).concat(" (Xsession)"),
            command: String::from_str(kept_command),
            session_type: SessionType::GraphicalSession,
        },
    )
}

/// Reads one directory entry as a desktop entry.
pub fn read_desktop_file(file: &DesktopFile) -> (session: Option<Session>)
    ensures
        match session {
            Some(made) => desktop_session(file@) == Some(made@),
            None => desktop_session(file@) is None,
        },
{
    if !is_desktop_entry(file.name.as_str()) {
        return None;
    }
    let text = match &file.content {
        Some(text) => text,
        None => { return None; },
    };
    let document = match load_ini(text.as_str()) {
        Some(document) => document,
        None => { return None; },
    };
    let name = ini_get(&document, "Desktop Entry", "Name");
    let command = ini_get(&document, "Desktop Entry", "Exec");
    session_from_entry(name, command)
}

/// Adds the sessions of the desktop entries among `files` to `sessions`, in
/// the order of the files. A file that describes no session is passed over
/// and the files after it are still read.
pub fn add_xsessions(sessions: &mut indexmap::IndexMap<String, Session>, files: &Vec<DesktopFile>)
    ensures
        catalog_entries(*final(sessions)) == with_xsessions(
            catalog_entries(*old(sessions)),
            files_view(files@),
        ),
{
    let ghost start = catalog_entries(*sessions);
    let mut index: usize = 0;
    assert(files_view(files@).take(0) =~= Seq::empty());
    while index < files.len()
        invariant
            0 <= index <= files.len(),
            catalog_entries(*sessions) == with_xsessions(
                start,
                files_view(files@).take(index as int),
            ),
        decreases files.len() - index,
    {
        proof {
            let longer = files_view(files@).take(index + 1);
            assert(longer.drop_last() =~= files_view(files@).take(index as int));
            assert(longer.last() == files@[index as int]@);
        }
        match read_desktop_file(&files[index]) {
            Some(session) => {
                catalog_insert(sessions, session.name.clone(), session);
            },
            None => {},
        }
        index += 1;
    }
    assert(files_view(files@).take(files.len() as int) =~= files_view(files@));
}

/// Builds the catalog of a descriptor directory from its entries: the
/// built-in shell entry first, then the graphical sessions. It never fails; a
/// directory that is missing is one without entries.
pub fn build_catalog(files: &Vec<DesktopFile>) -> (sessions: Vec<Session>)
    ensures
        sessions_view(sessions@) == catalog(files_view(files@)),
{
    let mut entries = new_catalog();
    let shell = Session::default_shell();
    catalog_insert(&mut entries, shell.name.clone(), shell);
    assert(catalog_entries(entries) =~= seq![(default_shell().name, default_shell())]);
    add_xsessions(&mut entries, files);
    let sessions = catalog_values(entries);
    assert(sessions_view(sessions@) =~= catalog(files_view(files@)));
    sessions
}

/// Inserting keeps every pair that was there at its place, under its key, and
/// changes the session of no other key.
pub proof fn lemma_insert_keeps_places(
    entries: Seq<(Seq<char>, SessionView)>,
    key: Seq<char>,
    value: SessionView,
    place: int,
)
    requires
        0 <= place < entries.len(),
    ensures
        inserted(entries, key, value).len() >= entries.len(),
        inserted(entries, key, value)[place].0 == entries[place].0,
        entries[place].0 != key ==> inserted(entries, key, value)[place] == entries[place],
{
    if has_key(entries, key) {
        let at = key_position(entries, key);
        assert(entries[at].0 == key);
    }
}

/// The catalog is stable in its order: what the first files of a directory
/// put at a place stays at that place, under its name, whatever files follow.
pub proof fn lemma_places_are_stable(
    entries: Seq<(Seq<char>, SessionView)>,
    files: Seq<DesktopFileView>,
    count: int,
    place: int,
)
    requires
        0 <= count <= files.len(),
        0 <= place < with_xsessions(entries, files.take(count)).len(),
    ensures
        place < with_xsessions(entries, files).len(),
        with_xsessions(entries, files)[place].0 == with_xsessions(entries, files.take(count))[place].0,
    decreases files.len() - count,
{
    if count == files.len() {
        assert(files.take(count) =~= files);
    } else {
        let shorter = files.drop_last();
        assert(shorter.take(count) =~= files.take(count));
        lemma_places_are_stable(entries, shorter, count, place);
        match desktop_session(files.last()) {
            Some(session) => {
                lemma_insert_keeps_places(
                    with_xsessions(entries, shorter),
                    session.name,
                    session,
                    place,
                );
            },
            None => {},
        }
    }
}

/// Every session of a catalog under construction stands under its own name.
proof fn lemma_keys_are_names(files: Seq<DesktopFileView>, place: int)
    requires
        0 <= place < with_xsessions(seq![(default_shell().name, default_shell())], files).len(),
    ensures
        with_xsessions(seq![(default_shell().name, default_shell())], files)[place].0
            == with_xsessions(seq![(default_shell().name, default_shell())], files)[place].1.name,
    decreases files.len(),
{
    let start = seq![(default_shell().name, default_shell())];
    if files.len() > 0 {
        let before = with_xsessions(start, files.drop_last());
        match desktop_session(files.last()) {
            Some(session) => {
                if has_key(before, session.name) {
                    let at = key_position(before, session.name);
                    if place != at {
                        lemma_keys_are_names(files.drop_last(), place);
                    }
                } else if place < before.len() {
                    lemma_keys_are_names(files.drop_last(), place);
                }
            },
            None => {
                lemma_keys_are_names(files.drop_last(), place);
            },
        }
    }
}

/// The catalog is stable in its order: the session that the first files of a
/// directory put at a place keeps that place and its name whatever files
/// follow; a later file can only replace what a session of its own name runs.
pub proof fn lemma_catalog_is_order_stable(files: Seq<DesktopFileView>, count: int, place: int)
    requires
        0 <= count <= files.len(),
        0 <= place < catalog(files.take(count)).len(),
    ensures
        place < catalog(files).len(),
        catalog(files)[place].name == catalog(files.take(count))[place].name,
{
    let start = seq![(default_shell().name, default_shell())];
    lemma_places_are_stable(start, files, count, place);
    lemma_keys_are_names(files, place);
    lemma_keys_are_names(files.take(count), place);
}

/// The built-in shell entry stays the first entry under its key, whatever the
/// files are: no desktop entry can take its name, since every name that comes
/// from a file ends in its mark.
proof fn lemma_shell_entry_stays(files: Seq<DesktopFileView>)
    ensures
        with_xsessions(seq![(default_shell().name, default_shell())], files).len() >= 1,
        with_xsessions(seq![(default_shell().name, default_shell())], files)[0] == (
            default_shell().name,
            default_shell(),
        ),
    decreases files.len(),
{
    if files.len() > 0 {
        lemma_shell_entry_stays(files.drop_last());
        match desktop_session(files.last()) {
            Some(session) => {
                reveal_strlit("shell");
                reveal_strlit(" (Xsession)");
                assert(session.name.len() >= 11);
                assert(session.name != default_shell().name);
                lemma_insert_keeps_places(
                    with_xsessions(seq![(default_shell().name, default_shell())], files.drop_last()),
                    session.name,
                    session,
                    0,
                );
            },
            None => {},
        }
    }
}

/// The built-in shell entry is in every catalog and is its first entry, also
/// where the directory has no usable file at all.
pub proof fn lemma_default_shell_always_first(files: Seq<DesktopFileView>)
    ensures
        catalog(files).len() >= 1,
        catalog(files)[0] == default_shell(),
        catalog(Seq::empty()) == seq![default_shell()],
{
    lemma_shell_entry_stays(files);
    assert(catalog(Seq::empty()) =~= seq![default_shell()]);
}

/// The catalog depends on nothing but the names and contents of the files and
/// their order: the same directory contents give the same catalog.
pub proof fn lemma_catalog_is_deterministic(first: Seq<DesktopFile>, second: Seq<DesktopFile>)
    requires
        files_view(first) == files_view(second),
    ensures
        catalog(files_view(first)) == catalog(files_view(second)),
{
}

/// Files behind a point of the scan are read the same whatever stood before.
proof fn lemma_scan_splits(
    entries: Seq<(Seq<char>, SessionView)>,
    before: Seq<DesktopFileView>,
    after: Seq<DesktopFileView>,
)
    ensures
        with_xsessions(entries, before + after) == with_xsessions(
            with_xsessions(entries, before),
            after,
        ),
    decreases after.len(),
{
    if after.len() == 0 {
        assert(before + after =~= before);
    } else {
        assert((before + after).drop_last() =~= before + after.drop_last());
        assert((before + after).last() == after.last());
        lemma_scan_splits(entries, before, after.drop_last());
    }
}

/// A file that describes no session is passed over and the scan goes on: the
/// catalog is the one of the directory without that file.
pub proof fn lemma_unusable_file_is_skipped(
    before: Seq<DesktopFileView>,
    file: DesktopFileView,
    after: Seq<DesktopFileView>,
)
    requires
        desktop_session(file) is None,
    ensures
        catalog(before + seq![file] + after) == catalog(before + after),
{
    let start = seq![(default_shell().name, default_shell())];
    lemma_scan_splits(start, before + seq![file], after);
    lemma_scan_splits(start, before, after);
    assert((before + seq![file]).drop_last() =~= before);
    assert((before + seq![file]).last() == file);
}

/// A desktop entry without the key `Exec` describes no session, so it is
/// passed over and the files after it are still read.
pub proof fn lemma_entry_without_command_is_skipped(
    before: Seq<DesktopFileView>,
    file: DesktopFileView,
    after: Seq<DesktopFileView>,
)
    requires
        file.content matches Some(text) && ini_document(text) matches Some(document)
            && !document.contains_key(("Desktop Entry"@, "Exec"@)),
    ensures
        desktop_session(file) is None,
        catalog(before + seq![file] + after) == catalog(before + after),
{
    lemma_unusable_file_is_skipped(before, file, after);
}

} // verus!
