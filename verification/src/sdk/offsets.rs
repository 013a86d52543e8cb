//! The offset table: a JSON document with a `timestamp`, a `signatures`
//! section and a `netvars` section, each mapping names to unsigned offsets.
use vstd::prelude::*;

verus! {

#[verifier::external_type_specification]
#[verifier::external_body]
pub struct ExJsonValue(json::JsonValue);

#[verifier::external_type_specification]
#[verifier::external_body]
pub struct ExJsonError(json::Error);

/// What a JSON value holds as unsigned integers, addressed by key paths:
/// `p` is in the domain when following the object members named by `p`
/// (json's `Index<&str>`, which yields `null` for a missing member or a
/// non-object) reaches a value whose `as_usize()` is `Some(n)`, and then
/// `p` maps to `n`.
pub uninterp spec fn json_usize_paths(value: json::JsonValue) -> Map<Seq<Seq<char>>, usize>;

/// What `json::parse` makes of a source text: `None` when it fails, else
/// the unsigned integers that the parsed value holds by key path.
pub uninterp spec fn json_parse_outcome(source: Seq<char>) -> Option<Map<Seq<Seq<char>>, usize>>;

/// The unsigned integer that `value` holds at `path`, if any.
pub open spec fn usize_at(value: json::JsonValue, path: Seq<Seq<char>>) -> Option<usize> {
    usize_in(json_usize_paths(value), path)
}

/// The unsigned integer that a path map holds at `path`, if any.
pub open spec fn usize_in(paths: Map<Seq<Seq<char>>, usize>, path: Seq<Seq<char>>) -> Option<usize> {
    if paths.contains_key(path) {
        Some(paths[path])
    } else {
        None
    }
}

/// `json::parse`: parsing depends on the source text alone, so whether it
/// succeeds and what the parsed value holds are named by `json_parse_outcome`.
#[verifier::external_body]
fn parse_json(source: &str) -> (r: Result<json::JsonValue, json::Error>)
    ensures
        r is Ok <==> json_parse_outcome(source@) is Some,
        r matches Ok(v) ==> json_parse_outcome(source@) == Some(json_usize_paths(v)),
{
    json::parse(source)
}

/// `value[key]` (json's `Index<&str>`): the member `key` of an object, and
/// the shared `null` value for a missing member or a non-object. What it
/// holds at a path `p` is what `value` holds at `[key] + p`.
#[verifier::external_body]
fn json_member<'a>(value: &'a json::JsonValue, key: &str) -> (r: &'a json::JsonValue)
    ensures
        forall|p: Seq<Seq<char>>|
            #![trigger json_usize_paths(*r).contains_key(p)]
            json_usize_paths(*r).contains_key(p) <==> json_usize_paths(*value).contains_key(
                seq![key@] + p,
            ),
        forall|p: Seq<Seq<char>>|
            #![trigger json_usize_paths(*r)[p]]
            json_usize_paths(*r).contains_key(p) ==> json_usize_paths(*r)[p] == json_usize_paths(
                *value,
            )[seq![key@] + p],
{
    &value[key]
}

/// `JsonValue::as_usize`: the unsigned integer that the value itself holds,
/// which is what it holds at the empty path.
#[verifier::external_body]
fn json_as_usize(value: &json::JsonValue) -> (r: Option<usize>)
    ensures
        r == usize_at(*value, Seq::empty()),
{
    value.as_usize()
}

/// The key path of an offset named `name` in section `section`.
pub open spec fn section_path(section: Seq<char>, name: Seq<char>) -> Seq<Seq<char>> {
    seq![section, name]
}

/// The offset that the table lists under `name` in its `signatures` section.
pub open spec fn signature_of(offsets: json::JsonValue, name: Seq<char>) -> Option<usize> {
    usize_at(offsets, section_path("signatures"@, name))
}

/// The offset that the table lists under `name` in its `netvars` section.
pub open spec fn netvar_of(offsets: json::JsonValue, name: Seq<char>) -> Option<usize> {
    usize_at(offsets, section_path("netvars"@, name))
}

/// Error code that a lookup reports for a name with no unsigned offset.
pub const MISSING_OFFSET: usize = 0x10;

/// The result of a lookup: the offset, or `MISSING_OFFSET` when there is none.
pub open spec fn lookup_result(found: Option<usize>) -> Result<usize, usize> {
    match found {
        Some(v) => Ok(v),
        None => Err(MISSING_OFFSET),
    }
}

/// A lookup reports the code 0x10 for a name with no unsigned offset, and
/// the offset itself otherwise.
pub proof fn lookup_result_law(found: Option<usize>)
    ensures
        found is None ==> lookup_result(found) == Err::<usize, usize>(0x10),
        found matches Some(v) ==> lookup_result(found) == Ok::<usize, usize>(v),
{
}

fn lookup_in_section(offsets: &json::JsonValue, section: &str, name: &str) -> (r: Result<
    usize,
    usize,
>)
    ensures
        r == lookup_result(usize_at(*offsets, section_path(section@, name@))),
{
    let sect = json_member(offsets, section);
    let entry = json_member(sect, name);
    let found = json_as_usize(entry);
    proof {
        let p = section_path(section@, name@);
        assert(seq![section@] + (seq![name@] + Seq::<Seq<char>>::empty()) =~= p);
        assert(seq![name@] + Seq::<Seq<char>>::empty() =~= seq![name@]);
        assert(json_usize_paths(*entry).contains_key(Seq::empty()) ==> json_usize_paths(*sect).contains_key(seq![name@]));
    }
    match found {
        Some(v) => Ok(v),
        None => Err(MISSING_OFFSET),
    }
}

/// The offset listed under `name` in the `signatures` section, or
/// `Err(0x10)` when there is no unsigned integer there.
pub fn get_signature(offsets: &json::JsonValue, name: &str) -> (r: Result<usize, usize>)
    ensures
        r == lookup_result(signature_of(*offsets, name@)),
{
    lookup_in_section(offsets, "signatures", name)
}

/// The offset listed under `name` in the `netvars` section, or `Err(0x10)`
/// when there is no unsigned integer there.
pub fn get_netvar(offsets: &json::JsonValue, name: &str) -> (r: Result<usize, usize>)
    ensures
        r == lookup_result(netvar_of(*offsets, name@)),
{
    lookup_in_section(offsets, "netvars", name)
}


/// The key path of the table's publication time.
pub open spec fn timestamp_path() -> Seq<Seq<char>> {
    seq!["timestamp"@]
}

/// `value["timestamp"].as_usize()`: when the table was published.
pub fn read_timestamp(value: &json::JsonValue) -> (r: Option<usize>)
    ensures
        r == usize_at(*value, timestamp_path()),
{
    let member = json_member(value, "timestamp");
    let found = json_as_usize(member);
    proof {
        assert(seq!["timestamp"@] + Seq::<Seq<char>>::empty() =~= timestamp_path());
    }
    found
}

/// Why the offset table could not be loaded.
#[derive(Debug, Clone, Copy, PartialEq, Eq, Structural)]
pub enum OffsetsError {
    /// The local table is not valid JSON.
    LocalParse,
    /// The local table has no unsigned `timestamp`.
    LocalTimestamp,
    /// The published table is not valid JSON.
    NewestParse,
    /// The published table has no unsigned `timestamp`.
    NewestTimestamp,
    /// An event arrived that the current state does not wait for.
    UnexpectedEvent,
}

/// A parsed local table is usable when it carries an unsigned `timestamp`.
pub fn local_from_parse(parsed: Result<json::JsonValue, json::Error>) -> (r: Result<
    json::JsonValue,
    OffsetsError,
>)
    ensures
        match parsed {
            Err(_) => r == Err::<json::JsonValue, OffsetsError>(OffsetsError::LocalParse),
            Ok(v) => if usize_at(v, timestamp_path()) is Some {
                r == Ok::<json::JsonValue, OffsetsError>(v)
            } else {
                r == Err::<json::JsonValue, OffsetsError>(OffsetsError::LocalTimestamp)
            },
        },
{
    match parsed {
        Err(_) => Err(OffsetsError::LocalParse),
        Ok(v) => {
            if read_timestamp(&v).is_some() {
                Ok(v)
            } else {
                Err(OffsetsError::LocalTimestamp)
            }
        },
    }
}

/// Parses the text of the local table and checks that it carries a
/// `timestamp`.
pub fn load_local(text: &str) -> (r: Result<json::JsonValue, OffsetsError>)
    ensures
        match json_parse_outcome(text@) {
            None => r == Err::<json::JsonValue, OffsetsError>(OffsetsError::LocalParse),
            Some(m) => match r {
                Ok(v) => usize_in(m, timestamp_path()) is Some && json_usize_paths(v) == m,
                Err(e) => usize_in(m, timestamp_path()) is None && e == OffsetsError::LocalTimestamp,
            },
        },
{
    local_from_parse(parse_json(text))
}

/// Whether a table published at `cur_version` is still current against the
/// parsed published table: it is, unless the published `timestamp` is greater.
pub fn updated_against(cur_version: usize, newest: Result<json::JsonValue, json::Error>) -> (r:
    Result<bool, OffsetsError>)
    ensures
        match newest {
            Err(_) => r == Err::<bool, OffsetsError>(OffsetsError::NewestParse),
            Ok(v) => match usize_at(v, timestamp_path()) {
                None => r == Err::<bool, OffsetsError>(OffsetsError::NewestTimestamp),
                Some(n) => r == Ok::<bool, OffsetsError>(!(n > cur_version)),
            },
        },
{
    match newest {
        Err(_) => Err(OffsetsError::NewestParse),
        Ok(v) => match read_timestamp(&v) {
            None => Err(OffsetsError::NewestTimestamp),
            Some(n) => Ok(!(n > cur_version)),
        },
    }
}

/// Whether a table published at `cur_version` is still current against the
/// text of the published table.
pub fn check_updated(cur_version: usize, newest: &str) -> (r: Result<bool, OffsetsError>)
    ensures
        match json_parse_outcome(newest@) {
            None => r == Err::<bool, OffsetsError>(OffsetsError::NewestParse),
            Some(m) => match usize_in(m, timestamp_path()) {
                None => r == Err::<bool, OffsetsError>(OffsetsError::NewestTimestamp),
                Some(n) => r == Ok::<bool, OffsetsError>(!(n > cur_version)),
            },
        },
{
    updated_against(cur_version, parse_json(newest))
}


/// What to tell the user before a fresh table is fetched and saved.
#[derive(Debug, Clone, Copy, PartialEq, Eq, Structural)]
pub enum Notice {
    /// The local table could not be read.
    Missing,
    /// A newer table has been published.
    Outdated,
}

/// Where the loading of the offset table stands.
#[derive(Debug)]
pub enum OffsetsState {
    /// The local table is to be read.
    ReadLocal,
    /// The local table is loaded; the published one is being fetched.
    AwaitNewest { local: json::JsonValue },
    /// A fresh table is being fetched and saved over the local one.
    AwaitSave,
    /// Loading has ended, with the table or with a failure.
    Finished,
}

/// What the outside world reports back.
#[derive(Debug)]
pub enum OffsetsEvent {
    /// The text of the local table, or `None` when it could not be read.
    LocalFile(Option<String>),
    /// The text of the published table.
    Newest(String),
    /// The fresh table has been saved over the local one.
    Saved,
}

/// What the outside world is to do next.
#[derive(Debug)]
pub enum OffsetsAction {
    /// Read the local table.
    ReadLocalFile,
    /// Fetch the text of the published table.
    DownloadNewest,
    /// Tell the user why, then fetch the published table and save it locally.
    SaveNewest(Notice),
    /// Loading is done: this is the table.
    Finish(json::JsonValue),
    /// Loading failed.
    Fail(OffsetsError),
}

/// The first state and action: read the local table.
pub fn start() -> (r: (OffsetsState, OffsetsAction))
    ensures
        r == (OffsetsState::ReadLocal, OffsetsAction::ReadLocalFile),
{
    (OffsetsState::ReadLocal, OffsetsAction::ReadLocalFile)
}

/// The loading protocol: a missing local table is replaced by the published
/// one; a readable one is kept unless a newer one has been published, in
/// which case that one is saved and the local table read again.
pub open spec fn step_post(
    state: OffsetsState,
    event: OffsetsEvent,
    next: OffsetsState,
    action: OffsetsAction,
) -> bool {
    match (state, event) {
        (OffsetsState::ReadLocal, OffsetsEvent::LocalFile(None)) => {
            &&& next == OffsetsState::AwaitSave
            &&& action == OffsetsAction::SaveNewest(Notice::Missing)
        },
        (OffsetsState::ReadLocal, OffsetsEvent::LocalFile(Some(text))) => match json_parse_outcome(
            text@,
        ) {
            None => next == OffsetsState::Finished && action == OffsetsAction::Fail(
                OffsetsError::LocalParse,
            ),
            Some(m) => match usize_in(m, timestamp_path()) {
                None => next == OffsetsState::Finished && action == OffsetsAction::Fail(
                    OffsetsError::LocalTimestamp,
                ),
                Some(_) => {
                    &&& action == OffsetsAction::DownloadNewest
                    &&& next matches OffsetsState::AwaitNewest { local }
                    &&& json_usize_paths(local) == m
                },
            },
        },
        (OffsetsState::AwaitNewest { local }, OffsetsEvent::Newest(text)) => match usize_at(
            local,
            timestamp_path(),
        ) {
            None => next == OffsetsState::Finished && action == OffsetsAction::Fail(
                OffsetsError::LocalTimestamp,
            ),
            Some(t) => match json_parse_outcome(text@) {
                None => next == OffsetsState::Finished && action == OffsetsAction::Fail(
                    OffsetsError::NewestParse,
                ),
                Some(m) => match usize_in(m, timestamp_path()) {
                    None => next == OffsetsState::Finished && action == OffsetsAction::Fail(
                        OffsetsError::NewestTimestamp,
                    ),
                    Some(n) => if n > t {
                        next == OffsetsState::AwaitSave && action == OffsetsAction::SaveNewest(
                            Notice::Outdated,
                        )
                    } else {
                        next == OffsetsState::Finished && action == OffsetsAction::Finish(local)
                    },
                },
            },
        },
        (OffsetsState::AwaitSave, OffsetsEvent::Saved) => {
            &&& next == OffsetsState::ReadLocal
            &&& action == OffsetsAction::ReadLocalFile
        },
        _ => next == OffsetsState::Finished && action == OffsetsAction::Fail(
            OffsetsError::UnexpectedEvent,
        ),
    }
}

/// One step of loading the offset table: from the state and what the
/// outside world reported, the next state and what it is to do.
pub fn step(state: OffsetsState, event: OffsetsEvent) -> (r: (OffsetsState, OffsetsAction))
    ensures
        step_post(state, event, r.0, r.1),
{
    match state {
        OffsetsState::ReadLocal => match event {
            OffsetsEvent::LocalFile(None) => (
                OffsetsState::AwaitSave,
                OffsetsAction::SaveNewest(Notice::Missing),
            ),
            OffsetsEvent::LocalFile(Some(text)) => match load_local(text.as_str()) {
                Ok(local) => (OffsetsState::AwaitNewest { local }, OffsetsAction::DownloadNewest),
                Err(e) => (OffsetsState::Finished, OffsetsAction::Fail(e)),
            },
            _ => (OffsetsState::Finished, OffsetsAction::Fail(OffsetsError::UnexpectedEvent)),
        },
        OffsetsState::AwaitNewest { local } => match event {
            OffsetsEvent::Newest(text) => match read_timestamp(&local) {
                None => (OffsetsState::Finished, OffsetsAction::Fail(OffsetsError::LocalTimestamp)),
                Some(t) => match check_updated(t, text.as_str()) {
                    Err(e) => (OffsetsState::Finished, OffsetsAction::Fail(e)),
                    Ok(true) => (OffsetsState::Finished, OffsetsAction::Finish(local)),
                    Ok(false) => (
                        OffsetsState::AwaitSave,
                        OffsetsAction::SaveNewest(Notice::Outdated),
                    ),
                },
            },
            _ => (OffsetsState::Finished, OffsetsAction::Fail(OffsetsError::UnexpectedEvent)),
        },
        OffsetsState::AwaitSave => match event {
            OffsetsEvent::Saved => (OffsetsState::ReadLocal, OffsetsAction::ReadLocalFile),
            _ => (OffsetsState::Finished, OffsetsAction::Fail(OffsetsError::UnexpectedEvent)),
        },
        OffsetsState::Finished => (
            OffsetsState::Finished,
            OffsetsAction::Fail(OffsetsError::UnexpectedEvent),
        ),
    }
}


/// Loading hands back a table only after comparing it with the published
/// one, and only when the published one is not newer: the table is the local
/// one the state held, and its timestamp is at least the published timestamp.
pub proof fn finished_table_is_current(
    state: OffsetsState,
    event: OffsetsEvent,
    next: OffsetsState,
    action: OffsetsAction,
)
    requires
        step_post(state, event, next, action),
        action is Finish,
    ensures
        next == OffsetsState::Finished,
        state matches OffsetsState::AwaitNewest { local } && action == OffsetsAction::Finish(local),
        event matches OffsetsEvent::Newest(text) && json_parse_outcome(text@) is Some,
        ({
            let local = state->local;
            let published = json_parse_outcome(event->Newest_0@).unwrap();
            &&& usize_at(local, timestamp_path()) is Some
            &&& usize_in(published, timestamp_path()) is Some
            &&& usize_in(published, timestamp_path()).unwrap() <= usize_at(
                local,
                timestamp_path(),
            ).unwrap()
        }),
{
}

/// A fresh table is fetched only when the local one is missing or outdated,
/// and once it is saved the local table is read again.
pub proof fn refresh_rereads(
    state: OffsetsState,
    event: OffsetsEvent,
    next: OffsetsState,
    action: OffsetsAction,
    next2: OffsetsState,
    action2: OffsetsAction,
)
    requires
        step_post(state, event, next, action),
        action is SaveNewest,
        step_post(next, OffsetsEvent::Saved, next2, action2),
    ensures
        (action == OffsetsAction::SaveNewest(Notice::Missing)) <==> (event
            == OffsetsEvent::LocalFile(None)),
        next2 == OffsetsState::ReadLocal,
        action2 == OffsetsAction::ReadLocalFile,
{
}

} // verus!
