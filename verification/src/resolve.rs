//! Per-request resolution: classifying a request against a store into a
//! file to serve, a directory listing, an index redirect, a missing target,
//! or an internal failure, and mapping that outcome onto an HTTP status.
//!
//! The functions here are pure decision logic. The caller performs the
//! backend I/O (opening files, reading directories, object-store calls) and
//! hands the observed outcomes in as plain values; the functions classify
//! them. Backend reads are idempotent, so against an unmodified backend the
//! same observations recur and, these functions being exact in their
//! contracts, so does the same response.

use vstd::prelude::*;

verus! {

/// One entry of a directory or prefix listing: the child's name and whether
/// it is itself a directory.
#[derive(PartialEq, Eq, Debug)]
pub struct BrowseEntry {
    /// Name of the child.
    pub name: String,
    /// Whether the child is a directory.
    pub is_dir: bool,
}

/// Mathematical model of a [`BrowseEntry`].
pub struct EntryModel {
    pub name: Seq<char>,
    pub is_dir: bool,
}

impl View for BrowseEntry {
    type V = EntryModel;

    open spec fn view(&self) -> EntryModel {
        EntryModel { name: self.name@, is_dir: self.is_dir }
    }
}

/// The outcome of resolving a request path against a store.
#[derive(PartialEq, Eq, Debug)]
pub enum ResolvedTarget {
    /// The target is a regular object whose bytes form the response body.
    /// For a local file the body is streamed by an external primitive
    /// instead, and the local resolver signals that through
    /// [`LocalStep::ServeFile`].
    RegularFile { body: Vec<u8> },
    /// The target is a browsable directory or prefix; an external renderer
    /// turns the label and entries into the response body.
    DirectoryListing { dirname: String, entries: Vec<BrowseEntry> },
    /// The target is a directory with browsing disabled whose index file
    /// exists: the client is redirected to it, relative to the request.
    Redirect { location: String },
    /// The target does not exist.
    NotFound,
    /// A backend operation failed for a reason other than absence. The
    /// cause is for server-side logs only and never reaches the response.
    InternalFailure { cause: String },
}

/// Mathematical model of a [`ResolvedTarget`].
pub enum TargetModel {
    RegularFile { body: Seq<u8> },
    DirectoryListing { dirname: Seq<char>, entries: Seq<EntryModel> },
    Redirect { location: Seq<char> },
    NotFound,
    InternalFailure { cause: Seq<char> },
}

/// The models of a sequence of listing entries, element for element.
pub open spec fn entry_views(s: Seq<BrowseEntry>) -> Seq<EntryModel> {
    s.map_values(|e: BrowseEntry| e@)
}

impl View for ResolvedTarget {
    type V = TargetModel;

    open spec fn view(&self) -> TargetModel {
        match self {
            ResolvedTarget::RegularFile { body } => TargetModel::RegularFile { body: body@ },
            ResolvedTarget::DirectoryListing { dirname, entries } => TargetModel::DirectoryListing {
                dirname: dirname@,
                entries: entry_views(entries@),
            },
            ResolvedTarget::Redirect { location } => TargetModel::Redirect { location: location@ },
            ResolvedTarget::NotFound => TargetModel::NotFound,
            ResolvedTarget::InternalFailure { cause } => TargetModel::InternalFailure {
                cause: cause@,
            },
        }
    }
}

/// What probing a candidate local path observed: the caller attempts to
/// access the path and reports the outcome here.
#[derive(PartialEq, Eq, Debug)]
pub enum LocalProbe {
    /// The path does not exist.
    Absent,
    /// Access failed for a reason other than absence; the text is the cause.
    AccessFailure(String),
    /// The path is a directory.
    Directory,
    /// The path is a regular file.
    RegularFile,
}

/// Mathematical model of a [`LocalProbe`].
pub enum ProbeModel {
    Absent,
    AccessFailure(Seq<char>),
    Directory,
    RegularFile,
}

impl View for LocalProbe {
    type V = ProbeModel;

    open spec fn view(&self) -> ProbeModel {
        match self {
            LocalProbe::Absent => ProbeModel::Absent,
            LocalProbe::AccessFailure(c) => ProbeModel::AccessFailure(c@),
            LocalProbe::Directory => ProbeModel::Directory,
            LocalProbe::RegularFile => ProbeModel::RegularFile,
        }
    }
}

/// What the local resolver decides from the first probe: either the request
/// is settled, or the caller owes one more observation.
#[derive(PartialEq, Eq, Debug)]
pub enum LocalStep {
    /// The candidate is a regular file: stream its bytes with the external
    /// file-serving primitive, unmodified.
    ServeFile,
    /// The candidate is a directory and browsing is disabled: check whether
    /// `index.html` exists directly under it, then apply [`resolve_index`].
    NeedIndexCheck,
    /// The candidate is a directory and browsing is enabled: enumerate its
    /// direct children, then apply [`build_listing`].
    NeedListing,
    /// The request is settled without further observation.
    Done(ResolvedTarget),
}

/// Mathematical model of a [`LocalStep`].
pub enum StepModel {
    ServeFile,
    NeedIndexCheck,
    NeedListing,
    Done(TargetModel),
}

impl View for LocalStep {
    type V = StepModel;

    open spec fn view(&self) -> StepModel {
        match self {
            LocalStep::ServeFile => StepModel::ServeFile,
            LocalStep::NeedIndexCheck => StepModel::NeedIndexCheck,
            LocalStep::NeedListing => StepModel::NeedListing,
            LocalStep::Done(t) => StepModel::Done(t@),
        }
    }
}

/// The local resolver's first decision: absence is a missing target, any
/// other access failure is an internal one, a directory needs the index
/// check or a listing depending on the browse flag, and a regular file is
/// served.
pub open spec fn spec_local_step(browse: bool, probe: ProbeModel) -> StepModel {
    match probe {
        ProbeModel::Absent => StepModel::Done(TargetModel::NotFound),
        ProbeModel::AccessFailure(c) => StepModel::Done(
            TargetModel::InternalFailure { cause: c },
        ),
        ProbeModel::Directory => if browse {
            StepModel::NeedListing
        } else {
            StepModel::NeedIndexCheck
        },
        ProbeModel::RegularFile => StepModel::ServeFile,
    }
}

/// Classifies the probe of a candidate local path, under the store's browse
/// flag, into the next step of the resolution.
pub fn local_step(browse: bool, probe: LocalProbe) -> (r: LocalStep)
    ensures
        r@ == spec_local_step(browse, probe@),
{
    match probe {
        LocalProbe::Absent => LocalStep::Done(ResolvedTarget::NotFound),
        LocalProbe::AccessFailure(c) => LocalStep::Done(
            ResolvedTarget::InternalFailure { cause: c },
        ),
        LocalProbe::Directory => if browse {
            LocalStep::NeedListing
        } else {
            LocalStep::NeedIndexCheck
        },
        LocalProbe::RegularFile => LocalStep::ServeFile,
    }
}

/// The outcome owed to a directory with browsing disabled: a redirect to
/// its index file when that exists, a missing target otherwise. The
/// location is relative, so the client re-requests the index under the
/// directory's own path.
pub open spec fn spec_resolve_index(index_present: bool) -> TargetModel {
    if index_present {
        TargetModel::Redirect { location: "index.html"@ }
    } else {
        TargetModel::NotFound
    }
}

/// Settles a directory request with browsing disabled, from whether an
/// `index.html` exists directly under the directory (or under the prefix,
/// for an object store).
pub fn resolve_index(index_present: bool) -> (r: ResolvedTarget)
    ensures
        r@ == spec_resolve_index(index_present),
{
    if index_present {
        ResolvedTarget::Redirect { location: String::from_str("index.html") }
    } else {
        ResolvedTarget::NotFound
    }
}

/// What enumerating one direct child of a directory observed.
#[derive(Clone, Copy, PartialEq, Eq, Structural, Debug)]
pub enum EntryKind {
    /// The child is a directory.
    Directory,
    /// The child is a regular file or other non-directory.
    File,
    /// The child's metadata could not be read.
    Unreadable,
}

/// One enumerated direct child of a directory, as observed by the caller.
#[derive(PartialEq, Eq, Debug)]
pub struct RawEntry {
    /// Name of the child.
    pub name: String,
    /// What kind of child it is, if that could be read.
    pub kind: EntryKind,
}

/// Mathematical model of a [`RawEntry`].
pub struct RawModel {
    pub name: Seq<char>,
    pub kind: EntryKind,
}

impl View for RawEntry {
    type V = RawModel;

    open spec fn view(&self) -> RawModel {
        RawModel { name: self.name@, kind: self.kind }
    }
}

/// The listing entry owed to one enumerated child: its name, flagged as a
/// directory or not. A child whose metadata could not be read yields no
/// entry: it is skipped rather than failing the whole listing.
pub open spec fn spec_browse_entry(raw: RawModel) -> Option<EntryModel> {
    if raw.kind == EntryKind::Unreadable {
        None
    } else {
        Some(EntryModel { name: raw.name, is_dir: raw.kind == EntryKind::Directory })
    }
}

impl BrowseEntry {
    /// Converts one enumerated child into its listing entry, skipping a
    /// child whose metadata could not be read.
    pub fn from_raw(raw: &RawEntry) -> (r: Option<BrowseEntry>)
        ensures
            match r {
                Some(e) => spec_browse_entry(raw@) == Some(e@),
                None => spec_browse_entry(raw@) is None,
            },
    {
        match raw.kind {
            EntryKind::Unreadable => None,
            EntryKind::Directory => Some(BrowseEntry { name: raw.name.clone(), is_dir: true }),
            EntryKind::File => Some(BrowseEntry { name: raw.name.clone(), is_dir: false }),
        }
    }

    /// Listing entry for one listed object key: an object store lists flat,
    /// so every key is flagged as a non-directory.
    pub fn from_key(key: String) -> (r: BrowseEntry)
        ensures
            r@ == (EntryModel { name: key@, is_dir: false }),
    {
        BrowseEntry { name: key, is_dir: false }
    }
}

/// The listing owed to a sequence of enumerated children: one entry per
/// readable child, in enumeration order; unreadable children are skipped.
pub open spec fn listing_of(raw: Seq<RawEntry>) -> Seq<EntryModel>
    decreases raw.len(),
{
    if raw.len() == 0 {
        Seq::empty()
    } else {
        match spec_browse_entry(raw.last()@) {
            Some(e) => listing_of(raw.drop_last()).push(e),
            None => listing_of(raw.drop_last()),
        }
    }
}

/// Taking the models of listing entries commutes with appending one entry.
proof fn lemma_entry_views_push(s: Seq<BrowseEntry>, e: BrowseEntry)
    ensures
        entry_views(s.push(e)) == entry_views(s).push(e@),
{
    assert(entry_views(s.push(e)) =~= entry_views(s).push(e@));
}

/// Builds the listing outcome for a browsable directory from its enumerated
/// children: the directory's label and one entry per readable child, in
/// enumeration order.
pub fn build_listing(dirname: String, raw: Vec<RawEntry>) -> (r: ResolvedTarget)
    ensures
        r@ == (TargetModel::DirectoryListing { dirname: dirname@, entries: listing_of(raw@) }),
{
    let mut entries: Vec<BrowseEntry> = Vec::new();
    let n = raw.len();
    let mut i: usize = 0;
    while i < n
        invariant
            n == raw@.len(),
            i <= n,
            entry_views(entries@) == listing_of(raw@.take(i as int)),
        decreases n - i,
    {
        let ghost pre = raw@.take(i as int);
        let ghost post = raw@.take(i as int + 1);
        proof {
            assert(post.drop_last() =~= pre);
            assert(post.last() == raw@[i as int]);
        }
        match BrowseEntry::from_raw(&raw[i]) {
            Some(e) => {
                let ghost before = entries@;
                entries.push(e);
                proof {
                    lemma_entry_views_push(before, e);
                }
            },
            None => {},
        }
        i += 1;
    }
    proof {
        assert(raw@.take(n as int) =~= raw@);
    }
    ResolvedTarget::DirectoryListing { dirname, entries }
}

/// The effect of one path segment on directory depth: `.` and an empty
/// segment stay, `..` climbs one level, anything else descends one.
pub open spec fn seg_effect(seg: Seq<char>) -> int {
    if seg.len() == 0 || seg == seq!['.'] {
        0
    } else if seg == seq!['.', '.'] {
        -1
    } else {
        1
    }
}

/// Whether scanning the remaining characters, from the given depth and
/// with the current segment's characters already accumulated, ever climbs
/// above the root.
pub open spec fn spec_escape_scan(s: Seq<char>, depth: int, cur: Seq<char>) -> bool
    decreases s.len(),
{
    if s.len() == 0 {
        depth + seg_effect(cur) < 0
    } else if s[0] == '/' {
        depth + seg_effect(cur) < 0 || spec_escape_scan(
            s.drop_first(),
            depth + seg_effect(cur),
            Seq::empty(),
        )
    } else {
        spec_escape_scan(s.drop_first(), depth, cur.push(s[0]))
    }
}

/// Whether a relative request path escapes the configured root: reading
/// its `/`-separated segments left to right, the depth below the root ever
/// becomes negative.
pub open spec fn spec_rel_escapes(s: Seq<char>) -> bool {
    spec_escape_scan(s, 0, Seq::empty())
}

/// A segment with a character other than `.` is neither `.` nor `..`.
proof fn lemma_not_all_dots(cur: Seq<char>)
    requires
        exists|k: int| 0 <= k < cur.len() && cur[k] != '.',
    ensures
        cur != seq!['.'],
        cur != seq!['.', '.'],
{
    let k0 = choose|k: int| 0 <= k < cur.len() && cur[k] != '.';
    if cur == seq!['.'] {
        assert(cur[k0] == '.');
    }
    if cur == seq!['.', '.'] {
        assert(cur[k0] == '.');
    }
}

/// Guards the local resolver against traversal: a relative path whose
/// `..` segments would escape the configured root is settled as a missing
/// target — deliberately not as an internal failure, so the answer reveals
/// nothing about what exists around the root. A contained path passes.
pub fn guard_traversal(rel: &str) -> (r: Option<ResolvedTarget>)
    ensures
        match r {
            Some(t) => spec_rel_escapes(rel@) && t@ == TargetModel::NotFound,
            None => !spec_rel_escapes(rel@),
        },
{
    let len = rel.unicode_len();
    let mut i: usize = 0;
    let mut depth: usize = 0;
    let mut seg_len: usize = 0;
    let mut all_dots: bool = true;
    let ghost mut cur: Seq<char> = Seq::empty();
    proof {
        assert(rel@.skip(0) =~= rel@);
    }
    while i < len
        invariant
            i <= len,
            len == rel@.len(),
            depth <= i,
            seg_len <= i,
            seg_len == cur.len(),
            cur == rel@.subrange(i - seg_len, i as int),
            all_dots == (forall|k: int| 0 <= k < cur.len() ==> cur[k] == '.'),
            spec_rel_escapes(rel@) == spec_escape_scan(rel@.skip(i as int), depth as int, cur),
        decreases len - i,
    {
        let c = rel.get_char(i);
        proof {
            assert(rel@.skip(i as int)[0] == rel@[i as int]);
            assert(rel@.skip(i as int).drop_first() =~= rel@.skip(i as int + 1));
        }
        if c == '/' {
            proof {
                if seg_len == 1 && all_dots {
                    assert(cur =~= seq!['.']);
                }
                if seg_len == 2 && all_dots {
                    assert(cur =~= seq!['.', '.']);
                }
                if !all_dots {
                    lemma_not_all_dots(cur);
                }
            }
            if all_dots && seg_len == 2 {
                if depth == 0 {
                    return Some(ResolvedTarget::NotFound);
                }
                depth -= 1;
            } else if seg_len != 0 && !(all_dots && seg_len == 1) {
                depth += 1;
            }
            seg_len = 0;
            all_dots = true;
            proof {
                cur = Seq::empty();
            }
        } else {
            let ghost prev = cur;
            let was_all_dots = all_dots;
            all_dots = all_dots && c == '.';
            seg_len += 1;
            proof {
                cur = prev.push(c);
                assert(cur =~= rel@.subrange(i + 1 - seg_len, i as int + 1));
                assert(forall|k: int| 0 <= k < prev.len() ==> cur[k] == prev[k]);
                assert(cur[prev.len() as int] == c);
                if !all_dots {
                    if was_all_dots {
                        assert(cur[cur.len() - 1] != '.');
                    } else {
                        let k0 = choose|k: int| 0 <= k < prev.len() && prev[k] != '.';
                        assert(cur[k0] != '.');
                    }
                }
            }
        }
        i += 1;
    }
    proof {
        assert(rel@.skip(len as int) =~= Seq::<char>::empty());
        if seg_len == 1 && all_dots {
            assert(cur =~= seq!['.']);
        }
        if seg_len == 2 && all_dots {
            assert(cur =~= seq!['.', '.']);
        }
        if !all_dots {
            lemma_not_all_dots(cur);
        }
    }
    if all_dots && seg_len == 2 && depth == 0 {
        Some(ResolvedTarget::NotFound)
    } else {
        None
    }
}

/// What the object-store resolver asks the caller to do for a request:
/// exactly one backend call, chosen from the request path and the store's
/// browse flag.
#[derive(Clone, Copy, PartialEq, Eq, Structural, Debug)]
pub enum ObjectAction {
    /// The request is for the mount root and browsing is disabled: issue an
    /// existence check for the object key `index.html`, then apply
    /// [`resolve_object_head`].
    HeadIndex,
    /// The request is for the mount root and browsing is enabled: list the
    /// objects under the empty prefix, first page only, then apply
    /// [`resolve_object_list`].
    ListPrefix,
    /// The request names an object: fetch it at the relative path, then
    /// apply [`resolve_object_fetch`].
    FetchObject,
}

/// The backend call owed to an object-store request.
pub open spec fn spec_object_action(browse: bool, path_empty: bool) -> ObjectAction {
    if !path_empty {
        ObjectAction::FetchObject
    } else if browse {
        ObjectAction::ListPrefix
    } else {
        ObjectAction::HeadIndex
    }
}

/// Chooses the one backend call that settles an object-store request, from
/// whether the relative path is empty and whether browsing is enabled.
pub fn object_action(browse: bool, path_empty: bool) -> (r: ObjectAction)
    ensures
        r == spec_object_action(browse, path_empty),
{
    if !path_empty {
        ObjectAction::FetchObject
    } else if browse {
        ObjectAction::ListPrefix
    } else {
        ObjectAction::HeadIndex
    }
}

/// What an existence check for the index object observed.
#[derive(PartialEq, Eq, Debug)]
pub enum HeadOutcome {
    /// The index object exists.
    Found,
    /// The backend answered with a not-found-class response.
    Missing,
    /// The check failed for any other reason; the text is the cause.
    Failure(String),
}

/// Mathematical model of a [`HeadOutcome`].
pub enum HeadModel {
    Found,
    Missing,
    Failure(Seq<char>),
}

impl View for HeadOutcome {
    type V = HeadModel;

    open spec fn view(&self) -> HeadModel {
        match self {
            HeadOutcome::Found => HeadModel::Found,
            HeadOutcome::Missing => HeadModel::Missing,
            HeadOutcome::Failure(c) => HeadModel::Failure(c@),
        }
    }
}

/// The outcome owed to the index existence check: a redirect to the index
/// when it exists, a missing target on a not-found-class answer, and an
/// internal failure otherwise.
pub open spec fn spec_resolve_object_head(h: HeadModel) -> TargetModel {
    match h {
        HeadModel::Found => TargetModel::Redirect { location: "index.html"@ },
        HeadModel::Missing => TargetModel::NotFound,
        HeadModel::Failure(c) => TargetModel::InternalFailure { cause: c },
    }
}

/// Settles a mount-root request with browsing disabled, from what the
/// existence check for the `index.html` object observed.
pub fn resolve_object_head(h: HeadOutcome) -> (r: ResolvedTarget)
    ensures
        r@ == spec_resolve_object_head(h@),
{
    match h {
        HeadOutcome::Found => ResolvedTarget::Redirect {
            location: String::from_str("index.html"),
        },
        HeadOutcome::Missing => ResolvedTarget::NotFound,
        HeadOutcome::Failure(c) => ResolvedTarget::InternalFailure { cause: c },
    }
}

/// What listing the objects under the empty prefix observed.
#[derive(PartialEq, Eq, Debug)]
pub enum ListOutcome {
    /// The first page of results, as the listed object keys in listing
    /// order.
    FirstPage(Vec<String>),
    /// The listing call succeeded but returned no result page at all.
    NoPage,
    /// The listing call failed; the text is the cause.
    Failure(String),
}

/// Mathematical model of a [`ListOutcome`].
pub enum ListModel {
    FirstPage(Seq<Seq<char>>),
    NoPage,
    Failure(Seq<char>),
}

/// The views of a sequence of listed object keys, element for element.
pub open spec fn key_views(keys: Seq<String>) -> Seq<Seq<char>> {
    keys.map_values(|k: String| k@)
}

impl View for ListOutcome {
    type V = ListModel;

    open spec fn view(&self) -> ListModel {
        match self {
            ListOutcome::FirstPage(keys) => ListModel::FirstPage(key_views(keys@)),
            ListOutcome::NoPage => ListModel::NoPage,
            ListOutcome::Failure(c) => ListModel::Failure(c@),
        }
    }
}

/// The listing entries owed to a page of object keys: one entry per key,
/// in listing order, each flagged as a non-directory — an object store
/// lists flat, without pseudo-directories.
pub open spec fn object_entries_of(keys: Seq<Seq<char>>) -> Seq<EntryModel> {
    keys.map_values(|k: Seq<char>| EntryModel { name: k, is_dir: false })
}

/// The outcome owed to the prefix listing: a listing labelled with the
/// bucket name and one flat entry per listed key; an answer without any
/// result page, or any other failure, is an internal one.
pub open spec fn spec_resolve_object_list(bucket: Seq<char>, l: ListModel) -> TargetModel {
    match l {
        ListModel::FirstPage(keys) => TargetModel::DirectoryListing {
            dirname: bucket,
            entries: object_entries_of(keys),
        },
        ListModel::NoPage => TargetModel::InternalFailure {
            cause: "no bucket found to list contents from"@,
        },
        ListModel::Failure(c) => TargetModel::InternalFailure { cause: c },
    }
}

/// Settles a mount-root request with browsing enabled, from what listing
/// the objects under the empty prefix observed. The listing is labelled
/// with the bucket's name.
pub fn resolve_object_list(bucket: String, l: ListOutcome) -> (r: ResolvedTarget)
    ensures
        r@ == spec_resolve_object_list(bucket@, l@),
{
    match l {
        ListOutcome::FirstPage(keys) => {
            let mut entries: Vec<BrowseEntry> = Vec::new();
            let n = keys.len();
            let mut i: usize = 0;
            while i < n
                invariant
                    n == keys@.len(),
                    i <= n,
                    entry_views(entries@) == object_entries_of(key_views(keys@.take(i as int))),
                decreases n - i,
            {
                let ghost before = entries@;
                let e = BrowseEntry::from_key(keys[i].clone());
                entries.push(e);
                proof {
                    lemma_entry_views_push(before, e);
                    assert(entry_views(entries@) =~= object_entries_of(
                        key_views(keys@.take(i as int + 1)),
                    ));
                }
                i += 1;
            }
            proof {
                assert(keys@.take(n as int) =~= keys@);
            }
            ResolvedTarget::DirectoryListing { dirname: bucket, entries }
        },
        ListOutcome::NoPage => ResolvedTarget::InternalFailure {
            cause: String::from_str("no bucket found to list contents from"),
        },
        ListOutcome::Failure(c) => ResolvedTarget::InternalFailure { cause: c },
    }
}

/// What fetching the object at the relative path observed.
#[derive(PartialEq, Eq, Debug)]
pub enum FetchOutcome {
    /// The object exists; these are its bytes.
    Data(Vec<u8>),
    /// The backend answered with a not-found-class response.
    Missing,
    /// The fetch failed for any other reason; the text is the cause.
    Failure(String),
}

/// Mathematical model of a [`FetchOutcome`].
pub enum FetchModel {
    Data(Seq<u8>),
    Missing,
    Failure(Seq<char>),
}

impl View for FetchOutcome {
    type V = FetchModel;

    open spec fn view(&self) -> FetchModel {
        match self {
            FetchOutcome::Data(b) => FetchModel::Data(b@),
            FetchOutcome::Missing => FetchModel::Missing,
            FetchOutcome::Failure(c) => FetchModel::Failure(c@),
        }
    }
}

/// The outcome owed to an object fetch: the object's bytes pass through
/// unmodified as the response payload; a not-found-class answer is a
/// missing target, any other failure an internal one.
pub open spec fn spec_resolve_object_fetch(f: FetchModel) -> TargetModel {
    match f {
        FetchModel::Data(b) => TargetModel::RegularFile { body: b },
        FetchModel::Missing => TargetModel::NotFound,
        FetchModel::Failure(c) => TargetModel::InternalFailure { cause: c },
    }
}

/// Settles a request for an object at a non-empty relative path, from what
/// the fetch observed.
pub fn resolve_object_fetch(f: FetchOutcome) -> (r: ResolvedTarget)
    ensures
        r@ == spec_resolve_object_fetch(f@),
{
    match f {
        FetchOutcome::Data(b) => ResolvedTarget::RegularFile { body: b },
        FetchOutcome::Missing => ResolvedTarget::NotFound,
        FetchOutcome::Failure(c) => ResolvedTarget::InternalFailure { cause: c },
    }
}

/// The HTTP status owed to a resolution outcome: bytes and listings are
/// served, an index redirect is a found-elsewhere, a missing target is not
/// found, and any other backend failure is an internal error.
pub open spec fn spec_http_status(t: TargetModel) -> u16 {
    match t {
        TargetModel::RegularFile { .. } => 200u16,
        TargetModel::DirectoryListing { .. } => 200u16,
        TargetModel::Redirect { .. } => 302u16,
        TargetModel::NotFound => 404u16,
        TargetModel::InternalFailure { .. } => 500u16,
    }
}

/// Maps a resolution outcome onto its HTTP status code.
pub fn http_status(t: &ResolvedTarget) -> (s: u16)
    ensures
        s == spec_http_status(t@),
{
    match t {
        ResolvedTarget::RegularFile { .. } => 200,
        ResolvedTarget::DirectoryListing { .. } => 200,
        ResolvedTarget::Redirect { .. } => 302,
        ResolvedTarget::NotFound => 404,
        ResolvedTarget::InternalFailure { .. } => 500,
    }
}

/// The fixed response body owed to a failing outcome, and `None` for the
/// successful ones. An internal failure's body never depends on its cause:
/// the cause (which may mention credentials or local paths) is logged
/// server-side only.
pub open spec fn spec_failure_body(t: TargetModel) -> Option<Seq<char>> {
    match t {
        TargetModel::NotFound => Some("not found"@),
        TargetModel::InternalFailure { .. } => Some("internal server error"@),
        _ => None,
    }
}

/// Response body for the failing outcomes: a fixed text per status,
/// independent of the failure's cause.
pub fn failure_body(t: &ResolvedTarget) -> (r: Option<String>)
    ensures
        match spec_failure_body(t@) {
            Some(b) => r matches Some(s) && s@ == b,
            None => r is None,
        },
{
    match t {
        ResolvedTarget::NotFound => Some(String::from_str("not found")),
        ResolvedTarget::InternalFailure { .. } => Some(
            String::from_str("internal server error"),
        ),
        _ => None,
    }
}

/// Inner induction for [`lemma_listing_matches_children`], carrying the
/// predicate and the entry map as parameters.
proof fn lemma_listing_filter_map(
    raw: Seq<RawEntry>,
    p: spec_fn(RawEntry) -> bool,
    f: spec_fn(RawEntry) -> EntryModel,
)
    requires
        forall|x: RawEntry| p(x) == (x.kind != EntryKind::Unreadable),
        forall|x: RawEntry| f(x) == (EntryModel {
            name: x.name@,
            is_dir: x.kind == EntryKind::Directory,
        }),
    ensures
        listing_of(raw) == raw.filter(p).map_values(f),
    decreases raw.len(),
{
    reveal(Seq::filter);
    if raw.len() == 0 {
        assert(listing_of(raw) =~= raw.filter(p).map_values(f));
    } else {
        let dl = raw.drop_last();
        lemma_listing_filter_map(dl, p, f);
        if p(raw.last()) {
            assert(raw.filter(p) == dl.filter(p).push(raw.last()));
            assert(raw.filter(p).map_values(f) =~= dl.filter(p).map_values(f).push(
                f(raw.last()),
            ));
            assert(spec_browse_entry(raw.last()@) == Some(f(raw.last())));
        } else {
            assert(raw.filter(p) == dl.filter(p));
            assert(spec_browse_entry(raw.last()@) is None);
        }
        assert(listing_of(raw) =~= raw.filter(p).map_values(f));
    }
}

/// Law: a browsable directory's listing has one entry per readable
/// enumerated child, in enumeration order — exactly the readable children,
/// each under its own name and flagged as a directory precisely when it is
/// one. Children whose metadata could not be read are the only ones
/// skipped.
pub proof fn lemma_listing_matches_children(raw: Seq<RawEntry>)
    ensures
        listing_of(raw) == raw.filter(|x: RawEntry| x.kind != EntryKind::Unreadable).map_values(
            |x: RawEntry| EntryModel { name: x.name@, is_dir: x.kind == EntryKind::Directory },
        ),
{
    lemma_listing_filter_map(
        raw,
        |x: RawEntry| x.kind != EntryKind::Unreadable,
        |x: RawEntry| EntryModel { name: x.name@, is_dir: x.kind == EntryKind::Directory },
    );
}

/// The whole local resolution, composed from its stages: the outcome the
/// caller emits, or `None` when the candidate is a regular file and its
/// bytes are streamed by the external file-serving primitive instead.
/// `index_present`, `dirname` and `raw` matter only on the branches that
/// reach them.
pub open spec fn spec_local_outcome(
    browse: bool,
    probe: ProbeModel,
    index_present: bool,
    dirname: Seq<char>,
    raw: Seq<RawEntry>,
) -> Option<TargetModel> {
    match spec_local_step(browse, probe) {
        StepModel::Done(t) => Some(t),
        StepModel::NeedIndexCheck => Some(spec_resolve_index(index_present)),
        StepModel::NeedListing => Some(
            TargetModel::DirectoryListing { dirname, entries: listing_of(raw) },
        ),
        StepModel::ServeFile => None,
    }
}

/// Law: the local resolution's answers, each exactly characterized.
/// A file is streamed precisely when the candidate is a regular file; the
/// index redirect comes precisely from a directory without browsing whose
/// index exists; "not found" comes precisely from a missing path or from
/// such a directory without an index; an internal failure comes precisely
/// from an access failure, and never reveals more than a fixed text.
pub proof fn lemma_local_outcomes_exact(
    browse: bool,
    probe: ProbeModel,
    index_present: bool,
    dirname: Seq<char>,
    raw: Seq<RawEntry>,
)
    ensures
        spec_local_outcome(browse, probe, index_present, dirname, raw) is None <==> probe
            is RegularFile,
        spec_local_outcome(browse, probe, index_present, dirname, raw) == Some(
            TargetModel::Redirect { location: "index.html"@ },
        ) <==> (probe is Directory && !browse && index_present),
        spec_local_outcome(browse, probe, index_present, dirname, raw) == Some(
            TargetModel::NotFound,
        ) <==> (probe is Absent || (probe is Directory && !browse && !index_present)),
        (spec_local_outcome(browse, probe, index_present, dirname, raw) matches Some(t)
            && t is InternalFailure) <==> probe is AccessFailure,
        (spec_local_outcome(browse, probe, index_present, dirname, raw) matches Some(t)
            && t is DirectoryListing) <==> (probe is Directory && browse),
{
}

/// The whole object-store resolution, composed from its stages: exactly
/// one backend call is made, and only its answer matters.
pub open spec fn spec_object_outcome(
    browse: bool,
    path_empty: bool,
    bucket: Seq<char>,
    head: HeadModel,
    list: ListModel,
    fetch: FetchModel,
) -> TargetModel {
    match spec_object_action(browse, path_empty) {
        ObjectAction::HeadIndex => spec_resolve_object_head(head),
        ObjectAction::ListPrefix => spec_resolve_object_list(bucket, list),
        ObjectAction::FetchObject => spec_resolve_object_fetch(fetch),
    }
}

/// Law: the object-store resolution's answers, each exactly characterized.
/// The fetched bytes pass through precisely for an existing object under a
/// non-empty path; the index redirect comes precisely from a mount-root
/// request without browsing whose index object exists; "not found" comes
/// precisely from a not-found-class answer to the fetch or to the index
/// check; everything else that fails is an internal failure.
pub proof fn lemma_object_outcomes_exact(
    browse: bool,
    path_empty: bool,
    bucket: Seq<char>,
    head: HeadModel,
    list: ListModel,
    fetch: FetchModel,
)
    ensures
        (spec_object_outcome(browse, path_empty, bucket, head, list, fetch) matches
            TargetModel::RegularFile { body } && fetch == FetchModel::Data(body)) <==> (!path_empty
            && fetch is Data),
        spec_object_outcome(browse, path_empty, bucket, head, list, fetch) == (
        TargetModel::Redirect { location: "index.html"@ }) <==> (path_empty && !browse && head
            is Found),
        spec_object_outcome(browse, path_empty, bucket, head, list, fetch)
            == TargetModel::NotFound <==> ((!path_empty && fetch is Missing) || (path_empty
            && !browse && head is Missing)),
        forall|keys: Seq<Seq<char>>|
            path_empty && browse && list == ListModel::FirstPage(keys) ==> spec_object_outcome(
                browse,
                path_empty,
                bucket,
                head,
                list,
                fetch,
            ) == (TargetModel::DirectoryListing {
                dirname: bucket,
                entries: object_entries_of(keys),
            }),
{
}

/// Law: the failing outcomes answer with fixed texts. In particular an
/// internal failure's response body is the same whatever its cause, so
/// nothing of the cause — credentials, paths, backend chatter — can reach
/// a client.
pub proof fn lemma_failure_body_hides_cause(c1: Seq<char>, c2: Seq<char>)
    ensures
        spec_http_status(TargetModel::InternalFailure { cause: c1 }) == 500,
        spec_failure_body(TargetModel::InternalFailure { cause: c1 }) == Some(
            "internal server error"@,
        ),
        spec_failure_body(TargetModel::InternalFailure { cause: c1 }) == spec_failure_body(
            TargetModel::InternalFailure { cause: c2 },
        ),
{
}

/// Law: local resolution is idempotent. The decision is a function of the
/// store's browse flag and the backend observations alone, so two requests
/// whose observations agree — as repeated reads of an unmodified backend
/// do — take the same step, produce the same listing, and answer with the
/// same status and body.
pub proof fn lemma_local_resolution_idempotent(
    browse: bool,
    probe: ProbeModel,
    index_present: bool,
    dirname: Seq<char>,
    raw: Seq<RawEntry>,
    s1: StepModel,
    s2: StepModel,
    t1: TargetModel,
    t2: TargetModel,
    l1: TargetModel,
    l2: TargetModel,
)
    requires
        s1 == spec_local_step(browse, probe),
        s2 == spec_local_step(browse, probe),
        t1 == spec_resolve_index(index_present),
        t2 == spec_resolve_index(index_present),
        l1 == (TargetModel::DirectoryListing { dirname, entries: listing_of(raw) }),
        l2 == (TargetModel::DirectoryListing { dirname, entries: listing_of(raw) }),
    ensures
        s1 == s2,
        t1 == t2,
        l1 == l2,
        spec_http_status(t1) == spec_http_status(t2),
        spec_failure_body(t1) == spec_failure_body(t2),
{
}

/// Law: object-store resolution is idempotent. Each stage's outcome is a
/// function of the request shape and the backend's answer alone, so two
/// requests with the same answers — as repeated reads of an unmodified
/// bucket do — issue the same backend call and produce the same outcome,
/// status and body.
pub proof fn lemma_object_resolution_idempotent(
    browse: bool,
    path_empty: bool,
    bucket: Seq<char>,
    head: HeadModel,
    list: ListModel,
    fetch: FetchModel,
    a1: ObjectAction,
    a2: ObjectAction,
    h1: TargetModel,
    h2: TargetModel,
    l1: TargetModel,
    l2: TargetModel,
    f1: TargetModel,
    f2: TargetModel,
)
    requires
        a1 == spec_object_action(browse, path_empty),
        a2 == spec_object_action(browse, path_empty),
        h1 == spec_resolve_object_head(head),
        h2 == spec_resolve_object_head(head),
        l1 == spec_resolve_object_list(bucket, list),
        l2 == spec_resolve_object_list(bucket, list),
        f1 == spec_resolve_object_fetch(fetch),
        f2 == spec_resolve_object_fetch(fetch),
    ensures
        a1 == a2,
        h1 == h2,
        l1 == l2,
        f1 == f2,
        spec_http_status(f1) == spec_http_status(f2),
        spec_failure_body(f1) == spec_failure_body(f2),
{
}

} // verus!
