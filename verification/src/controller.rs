use vstd::prelude::*;
use vstd::set_lib::{lemma_int_range, lemma_len_subset, set_int_range};
use vstd::string::StringSliceAdditionalSpecFns;
use vstd::utf8::{decode_utf8, encode_utf8, is_ascii_chars, is_char_boundary};

use crate::action::{can_cut, text_after};

use crate::http::{text_body, Method, Response, StatusCode};
use crate::identifier::{signature_counter, uuid_debug, FunctionId};
use crate::text::{bytes_equal, bytes_start_with, lemma_encode_utf8_injective};

verus! {

broadcast use vstd::utf8::group_utf8_lib;

/// The text of the root page.
pub const ROOT_TEXT: &'static str = "Hello World!";

/// What the service knows of a deployed function.
#[derive(Debug)]
pub struct FunctionMeta {
    pub name: String,
}

/// The deployed functions, each under its signature.
pub struct FunctionRegistry {
    entries: Vec<(FunctionId, FunctionMeta)>,
}

/// The map that a sequence of (signature, name) entries describes, later entries
/// overriding earlier ones.
pub open spec fn entries_map(entries: Seq<(Seq<u8>, Seq<char>)>) -> Map<Seq<u8>, Seq<char>>
    decreases entries.len(),
{
    if entries.len() == 0 {
        Map::empty()
    } else {
        entries_map(entries.drop_last()).insert(entries.last().0, entries.last().1)
    }
}

/// The entries after storing `name` under `id`: the name replaces the one of the
/// entry that holds `id`, in its place, or a new entry is added at the end.
pub open spec fn inserted_entries(entries: Seq<(Seq<u8>, Seq<char>)>, id: Seq<u8>, name: Seq<char>) -> Seq<(Seq<u8>, Seq<char>)> {
    if exists|i: int| 0 <= i < entries.len() && entries[i].0 == id {
        let i = choose|i: int| 0 <= i < entries.len() && entries[i].0 == id;
        entries.update(i, (id, name))
    } else {
        entries.push((id, name))
    }
}

/// No signature occurs twice.
pub open spec fn unique_keys(entries: Seq<(Seq<u8>, Seq<char>)>) -> bool {
    forall|i: int, j: int| 0 <= i < j < entries.len() ==> entries[i].0 != entries[j].0
}

/// The debug text of a string, as `{:?}` writes it.
pub uninterp spec fn debug_str(s: Seq<char>) -> Seq<char>;

/// Calls `<str as Debug>::fmt` through `format!("{:?}", ..)`: the string between
/// double quotes, with the characters that need it escaped. The contract names the
/// result and claims nothing more of it.
#[verifier::external_body]
fn debug_quote(s: &str) -> (text: String)
    ensures
        text@ == debug_str(s@),
{
    format!("{:?}", s)
}

/// The line that lists one function: its signature and its metadata, both as
/// `{:?}` writes them.
pub open spec fn listing_line(id: Seq<u8>, name: Seq<char>) -> Seq<char> {
    uuid_debug(id) + ", FunctionMeta { name: "@ + debug_str(name) + " }\n"@
}

/// The lines of the listing, one for each entry, in the order of the entries.
pub open spec fn listing_lines(entries: Seq<(Seq<u8>, Seq<char>)>) -> Seq<Seq<char>> {
    entries.map_values(|e: (Seq<u8>, Seq<char>)| listing_line(e.0, e.1))
}

/// The listing of all entries, one line each, in the order of the entries.
pub open spec fn listing(entries: Seq<(Seq<u8>, Seq<char>)>) -> Seq<char>
    decreases entries.len(),
{
    if entries.len() == 0 {
        seq![]
    } else {
        listing(entries.drop_last()) + listing_line(entries.last().0, entries.last().1)
    }
}

impl View for FunctionRegistry {
    type V = Map<Seq<u8>, Seq<char>>;

    /// Each deployed function's name under its signature.
    open spec fn view(&self) -> Map<Seq<u8>, Seq<char>> {
        entries_map(self.entries())
    }
}

impl FunctionRegistry {
    /// The entries, each by the bytes of its signature and its name.
    pub closed spec fn entries(&self) -> Seq<(Seq<u8>, Seq<char>)> {
        self.entries@.map_values(|e: (FunctionId, FunctionMeta)| (e.0@, e.1.name@))
    }

    #[verifier::type_invariant]
    closed spec fn keys_unique(&self) -> bool {
        unique_keys(self.entries())
    }

    /// An empty registry.
    pub fn new() -> (functions: FunctionRegistry)
        ensures
            functions@ == Map::<Seq<u8>, Seq<char>>::empty(),
            functions.entries().len() == 0,
    {
        let functions = FunctionRegistry { entries: Vec::new() };
        assert(functions.entries() =~= Seq::<(Seq<u8>, Seq<char>)>::empty());
        functions
    }

    /// Stores `name` under `id`, replacing what was stored there.
    pub fn insert(&mut self, id: FunctionId, name: String)
        ensures
            final(self)@ == old(self)@.insert(id@, name@),
            final(self).entries() == inserted_entries(old(self).entries(), id@, name@),
    {
        proof {
            use_type_invariant(&*self);
        }
        let ghost before = self.entries();
        let mut i: usize = 0;
        while i < self.entries.len()
            invariant
                i <= self.entries@.len(),
                before == self.entries(),
                before == old(self).entries(),
                unique_keys(before),
                forall|j: int| 0 <= j < i ==> before[j].0 != id@,
            decreases self.entries@.len() - i,
        {
            if self.entries[i].0.same(&id) {
                assert(before[i as int].0 == id@);
                let mut entries: Vec<(FunctionId, FunctionMeta)> = Vec::new();
                std::mem::swap(&mut entries, &mut self.entries);
                entries.set(i, (id, FunctionMeta { name }));
                proof {
                    let after = entries@.map_values(|e: (FunctionId, FunctionMeta)| (e.0@, e.1.name@));
                    assert(after =~= before.update(i as int, (id@, name@)));
                    lemma_entries_map_update(before, i as int, name@);
                    let k = choose|k: int| 0 <= k < before.len() && before[k].0 == id@;
                    assert(k == i);
                }
                self.entries = entries;
                return;
            }
            i = i + 1;
        }
        let mut entries: Vec<(FunctionId, FunctionMeta)> = Vec::new();
        std::mem::swap(&mut entries, &mut self.entries);
        entries.push((id, FunctionMeta { name }));
        proof {
            let after = entries@.map_values(|e: (FunctionId, FunctionMeta)| (e.0@, e.1.name@));
            assert(after =~= before.push((id@, name@)));
            assert(after.drop_last() =~= before);
            assert(!(exists|k: int| 0 <= k < before.len() && before[k].0 == id@));
        }
        self.entries = entries;
    }

    /// Whether a function is stored under `id`.
    pub(crate) fn holds(&self, id: &FunctionId) -> (found: bool)
        ensures
            found == self@.contains_key(id@),
    {
        let ghost entries = self.entries();
        let mut i: usize = 0;
        while i < self.entries.len()
            invariant
                i <= self.entries@.len(),
                entries == self.entries(),
                forall|j: int| 0 <= j < i ==> entries[j].0 != id@,
            decreases self.entries@.len() - i,
        {
            if self.entries[i].0.same(id) {
                proof {
                    assert(entries[i as int].0 == id@);
                    lemma_entries_map_keys(entries, id@);
                }
                return true;
            }
            i = i + 1;
        }
        proof {
            lemma_entries_map_keys(entries, id@);
        }
        false
    }

    /// A signature that no stored function holds: `candidate` where it is free,
    /// else `candidate` with the first free counter (bytes 0 to 5, 9 and 10), which
    /// keeps its version and variant. Among the first `n + 1` counters, with `n`
    /// functions stored, one is free.
    pub(crate) fn fresh_signature(&self, candidate: FunctionId) -> (id: FunctionId)
        ensures
            !self@.contains_key(id@),
            !self@.contains_key(candidate@) ==> id == candidate,
            candidate.is_random_v4() ==> id.is_random_v4(),
            self@.dom().finite(),
    {
        proof {
            use_type_invariant(self);
            lemma_entries_map_len(self.entries());
        }
        if !self.holds(&candidate) {
            return candidate;
        }
        let ghost entries = self.entries();
        let ghost counters = entries.map_values(|e: (Seq<u8>, Seq<char>)| signature_counter(e.0) as int);
        let n = self.entries.len();
        let mut v: u64 = 0;
        loop
            invariant
                entries == self.entries(),
                self@.contains_key(candidate@),
                self@.dom().finite(),
                n == entries.len(),
                counters == entries.map_values(|e: (Seq<u8>, Seq<char>)| signature_counter(e.0) as int),
                v as int <= n as int,
                forall|w: int| 0 <= w < v ==> counters.to_set().contains(w),
            decreases n - v,
        {
            let id = candidate.with_counter(v);
            if !self.holds(&id) {
                return id;
            }
            proof {
                lemma_entries_map_keys(entries, id@);
                let j = choose|j: int| 0 <= j < entries.len() && entries[j].0 == id@;
                assert(counters[j] == v as int);
                assert(counters.to_set().contains(v as int));
                assert forall|w: int| 0 <= w < v + 1 implies counters.to_set().contains(w) by {}
                if v as int == n as int {
                    counters.lemma_cardinality_of_set();
                    lemma_int_range(0, v + 1);
                    assert(set_int_range(0, v + 1).subset_of(counters.to_set()));
                    lemma_len_subset(set_int_range(0, v + 1), counters.to_set());
                    assert(false);
                }
            }
            v = v + 1;
        }
    }

    /// The listing of all deployed functions, one line each.
    pub fn listing_text(&self) -> (text: String)
        ensures
            text@ == listing(self.entries()),
    {
        let ghost entries = self.entries();
        let mut text = String::new();
        let mut i: usize = 0;
        while i < self.entries.len()
            invariant
                i <= self.entries@.len(),
                entries == self.entries(),
                text@ == listing(entries.take(i as int)),
            decreases self.entries@.len() - i,
        {
            let line_id = self.entries[i].0.debug_text();
            let line_name = debug_quote(self.entries[i].1.name.as_str());
            text.append(line_id.as_str());
            text.append(", FunctionMeta { name: ");
            text.append(line_name.as_str());
            text.append(" }\n");
            assert(entries.take(i + 1).drop_last() =~= entries.take(i as int));
            i = i + 1;
        }
        assert(entries.take(entries.len() as int) =~= entries);
        text
    }
}

/// With unique signatures, the map has one key for each entry.
pub proof fn lemma_entries_map_len(entries: Seq<(Seq<u8>, Seq<char>)>)
    requires
        unique_keys(entries),
    ensures
        entries_map(entries).len() == entries.len(),
        entries_map(entries).dom().finite(),
    decreases entries.len(),
{
    if entries.len() > 0 {
        let rest = entries.drop_last();
        lemma_entries_map_len(rest);
        lemma_entries_map_keys(rest, entries.last().0);
        assert(!entries_map(rest).contains_key(entries.last().0)) by {
            if entries_map(rest).contains_key(entries.last().0) {
                let k = choose|k: int| 0 <= k < rest.len() && rest[k].0 == entries.last().0;
                assert(entries[k].0 == entries[entries.len() - 1].0);
            }
        }
    }
}

/// A signature is a key of the map exactly where some entry holds it.
pub proof fn lemma_entries_map_keys(entries: Seq<(Seq<u8>, Seq<char>)>, key: Seq<u8>)
    ensures
        entries_map(entries).contains_key(key) <==> exists|k: int| 0 <= k < entries.len() && entries[k].0 == key,
    decreases entries.len(),
{
    if entries.len() > 0 {
        let rest = entries.drop_last();
        lemma_entries_map_keys(rest, key);
        if entries_map(rest).contains_key(key) {
            let k = choose|k: int| 0 <= k < rest.len() && rest[k].0 == key;
            assert(entries[k].0 == key);
        }
        if exists|k: int| 0 <= k < entries.len() && entries[k].0 == key {
            let k = choose|k: int| 0 <= k < entries.len() && entries[k].0 == key;
            if k < entries.len() - 1 {
                assert(rest[k].0 == key);
            }
        }
    }
}

/// With unique signatures, the map gives each entry's name for its signature.
pub proof fn lemma_entries_map_contains(entries: Seq<(Seq<u8>, Seq<char>)>, i: int)
    requires
        unique_keys(entries),
        0 <= i < entries.len(),
    ensures
        entries_map(entries).contains_key(entries[i].0),
        entries_map(entries)[entries[i].0] == entries[i].1,
    decreases entries.len(),
{
    if i < entries.len() - 1 {
        let rest = entries.drop_last();
        assert(rest[i] == entries[i]);
        lemma_entries_map_contains(rest, i);
    }
}

/// Replacing the name of one entry replaces it in the map.
pub proof fn lemma_entries_map_update(entries: Seq<(Seq<u8>, Seq<char>)>, i: int, name: Seq<char>)
    requires
        unique_keys(entries),
        0 <= i < entries.len(),
    ensures
        entries_map(entries.update(i, (entries[i].0, name))) == entries_map(entries).insert(entries[i].0, name),
        unique_keys(entries.update(i, (entries[i].0, name))),
    decreases entries.len(),
{
    let updated = entries.update(i, (entries[i].0, name));
    let key = entries[i].0;
    if i == entries.len() - 1 {
        assert(updated.drop_last() =~= entries.drop_last());
        assert(entries_map(updated) =~= entries_map(entries).insert(key, name));
    } else {
        let rest = entries.drop_last();
        lemma_entries_map_update(rest, i, name);
        assert(updated.drop_last() =~= rest.update(i, (rest[i].0, name)));
        assert(entries.last().0 != key);
        assert(entries_map(updated) =~= entries_map(entries).insert(key, name));
    }
}

/// The listing of the deployed functions holds one line for each of them, and
/// each line lists one of them, with the name stored under its signature.
pub proof fn law_listing_shows_each_function_once(entries: Seq<(Seq<u8>, Seq<char>)>)
    requires
        unique_keys(entries),
    ensures
        listing_lines(entries).len() == entries_map(entries).len(),
        forall|id: Seq<u8>| #[trigger] entries_map(entries).contains_key(id)
            ==> listing_lines(entries).contains(listing_line(id, entries_map(entries)[id])),
        forall|i: int| 0 <= i < listing_lines(entries).len() ==> exists|id: Seq<u8>|
            #[trigger] entries_map(entries).contains_key(id)
            && #[trigger] listing_lines(entries)[i] == listing_line(id, entries_map(entries)[id]),
        listing(entries) == listing_lines(entries).flatten(),
{
    lemma_entries_map_len(entries);
    assert forall|id: Seq<u8>| #[trigger] entries_map(entries).contains_key(id)
        implies listing_lines(entries).contains(listing_line(id, entries_map(entries)[id])) by {
        lemma_entries_map_keys(entries, id);
        let k = choose|k: int| 0 <= k < entries.len() && entries[k].0 == id;
        lemma_entries_map_contains(entries, k);
        assert(listing_lines(entries)[k] == listing_line(id, entries_map(entries)[id]));
    }
    assert forall|i: int| 0 <= i < listing_lines(entries).len() implies exists|id: Seq<u8>|
        #[trigger] entries_map(entries).contains_key(id)
        && #[trigger] listing_lines(entries)[i] == listing_line(id, entries_map(entries)[id]) by {
        lemma_entries_map_contains(entries, i);
        assert(entries_map(entries).contains_key(entries[i].0));
    }
    lemma_listing_flatten(entries);
}

/// `segment` stands whole, somewhere, in `text`.
pub open spec fn contains_segment(text: Seq<char>, segment: Seq<char>) -> bool {
    exists|k: int|
        0 <= k && k + segment.len() <= text.len() && #[trigger] text.subrange(k, k + segment.len()) == segment
}

/// The listing is the text `{:?}` gives of each function's signature and
/// metadata, `Uuid { bytes: [...] }, FunctionMeta { name: ... }`, one non-empty
/// newline-ended line per entry, nothing left out; and each deployed function's
/// line stands in it whole.
pub proof fn law_listing_lines_are_debug_texts(entries: Seq<(Seq<u8>, Seq<char>)>)
    requires
        unique_keys(entries),
    ensures
        listing(entries) == entries.map_values(
            |e: (Seq<u8>, Seq<char>)| uuid_debug(e.0) + ", FunctionMeta { name: "@ + debug_str(e.1) + " }\n"@,
        ).flatten(),
        forall|i: int| 0 <= i < entries.len() ==> {
            let line = #[trigger] listing_lines(entries)[i];
            &&& line.len() > 0
            &&& line.last() == '\n'
        },
        forall|id: Seq<u8>| #[trigger] entries_map(entries).contains_key(id) ==> contains_segment(
            listing(entries),
            uuid_debug(id) + ", FunctionMeta { name: "@ + debug_str(entries_map(entries)[id]) + " }\n"@,
        ),
{
    lemma_listing_flatten(entries);
    assert(listing_lines(entries) =~= entries.map_values(
        |e: (Seq<u8>, Seq<char>)| uuid_debug(e.0) + ", FunctionMeta { name: "@ + debug_str(e.1) + " }\n"@,
    ));
    reveal_strlit(" }\n");
    assert forall|i: int| 0 <= i < entries.len() implies {
        let line = #[trigger] listing_lines(entries)[i];
        &&& line.len() > 0
        &&& line.last() == '\n'
    } by {
        let line = listing_lines(entries)[i];
        let tail = " }\n"@;
        assert(line.subrange(line.len() - 3, line.len() as int) =~= tail);
    }
    assert forall|id: Seq<u8>| #[trigger] entries_map(entries).contains_key(id) implies contains_segment(
        listing(entries),
        uuid_debug(id) + ", FunctionMeta { name: "@ + debug_str(entries_map(entries)[id]) + " }\n"@,
    ) by {
        lemma_entries_map_keys(entries, id);
        let j = choose|j: int| 0 <= j < entries.len() && entries[j].0 == id;
        lemma_entries_map_contains(entries, j);
        lemma_listing_has_line(entries, j);
    }
}

/// The line of the `j`-th entry stands whole in the listing.
proof fn lemma_listing_has_line(entries: Seq<(Seq<u8>, Seq<char>)>, j: int)
    requires
        0 <= j < entries.len(),
    ensures
        contains_segment(listing(entries), listing_line(entries[j].0, entries[j].1)),
    decreases entries.len(),
{
    let rest = entries.drop_last();
    let line = listing_line(entries[j].0, entries[j].1);
    if j == entries.len() - 1 {
        let k = listing(rest).len() as int;
        assert(listing(entries).subrange(k, k + line.len()) =~= line);
    } else {
        assert(rest[j] == entries[j]);
        lemma_listing_has_line(rest, j);
        let k = choose|k: int|
            0 <= k && k + line.len() <= listing(rest).len() && #[trigger] listing(rest).subrange(k, k + line.len()) == line;
        assert(listing(entries).subrange(k, k + line.len()) =~= listing(rest).subrange(k, k + line.len()));
    }
}

proof fn lemma_listing_flatten(entries: Seq<(Seq<u8>, Seq<char>)>)
    ensures
        listing(entries) == listing_lines(entries).flatten(),
    decreases entries.len(),
{
    if entries.len() > 0 {
        let rest = entries.drop_last();
        lemma_listing_flatten(rest);
        assert(listing_lines(entries).drop_last() =~= listing_lines(rest));
        listing_lines(rest).lemma_flatten_push(listing_line(entries.last().0, entries.last().1));
        assert(listing_lines(entries) =~= listing_lines(rest).push(listing_line(entries.last().0, entries.last().1)));
    }
}

/// The pages of the service.
#[derive(Clone, Copy, Debug, PartialEq, Eq, Structural)]
pub enum Route {
    /// `GET /`: the welcome text.
    Root,
    /// `GET /all`: the listing of the deployed functions.
    All,
    /// `POST /deploy`: deploy a function.
    Deploy,
    /// A path that starts with `/endpoint/`: invoke a function.
    Endpoint,
    /// Anything else.
    BadRequest,
}

/// The page for a request.
pub open spec fn route_of(method: Method, path: &str) -> Route {
    if method == Method::Get && path@ == "/"@ {
        Route::Root
    } else if method == Method::Get && path@ == "/all"@ {
        Route::All
    } else if method == Method::Post && path@ == "/deploy"@ {
        Route::Deploy
    } else if "/endpoint/".spec_bytes().is_prefix_of(path.spec_bytes()) {
        Route::Endpoint
    } else {
        Route::BadRequest
    }
}

/// The request matches one of the fixed pages, or the first 10 bytes of its path
/// can be cut off, as the check for `/endpoint/` does.
pub open spec fn route_defined(method: Method, path: &str) -> bool {
    ||| method == Method::Get && path@ == "/"@
    ||| method == Method::Get && path@ == "/all"@
    ||| method == Method::Post && path@ == "/deploy"@
    ||| 10 <= path.spec_bytes().len() && is_char_boundary(path.spec_bytes(), 10)
}

/// A request routed to an endpoint has a path made of `/endpoint/` and the
/// function's signature, and that signature can be cut from it.
pub proof fn law_endpoint_path(method: Method, path: &str)
    requires
        route_defined(method, path),
        route_of(method, path) == Route::Endpoint,
    ensures
        can_cut(path, 10),
        path@ == "/endpoint/"@ + text_after(path, 10),
{
    let prefix = "/endpoint/";
    reveal_strlit("/endpoint/");
    assert(is_ascii_chars(prefix@));
    let bytes = path.spec_bytes();
    assert(prefix.spec_bytes().len() == 10);
    assert(bytes.subrange(0, 10) == prefix.spec_bytes());
    assert(is_char_boundary(bytes, 10));
    assert(decode_utf8(bytes) =~= decode_utf8(bytes.subrange(0, 10)) + decode_utf8(
        bytes.subrange(10, bytes.len() as int),
    ));
}

/// Only `GET /` is the welcome page, only `GET /all` the listing and only
/// `POST /deploy` a deployment; a request that is none of these goes to an
/// endpoint exactly where its path starts with `/endpoint/`, and is refused
/// otherwise.
pub proof fn law_routes_are_exact(method: Method, path: &str)
    ensures
        (route_of(method, path) == Route::Root) <==> (method == Method::Get && path@ == "/"@),
        (route_of(method, path) == Route::All) <==> (method == Method::Get && path@ == "/all"@),
        (route_of(method, path) == Route::Deploy) <==> (method == Method::Post && path@ == "/deploy"@),
        (route_of(method, path) == Route::Endpoint) <==> {
            &&& !(method == Method::Get && (path@ == "/"@ || path@ == "/all"@))
            &&& !(method == Method::Post && path@ == "/deploy"@)
            &&& "/endpoint/".spec_bytes().is_prefix_of(path.spec_bytes())
        },
        (route_of(method, path) == Route::BadRequest) <==> {
            &&& !(method == Method::Get && (path@ == "/"@ || path@ == "/all"@))
            &&& !(method == Method::Post && path@ == "/deploy"@)
            &&& !"/endpoint/".spec_bytes().is_prefix_of(path.spec_bytes())
        },
{
    reveal_strlit("/");
    reveal_strlit("/all");
    assert("/all"@.len() == 4);
    assert("/"@ != "/all"@);
}

/// Whether the path is exactly the given text.
fn path_is(path: &str, expected: &str) -> (is: bool)
    ensures
        is == (path@ == expected@),
{
    let eq = bytes_equal(path.as_bytes(), expected.as_bytes());
    proof {
        if eq {
            lemma_encode_utf8_injective(path@, expected@);
        }
    }
    eq
}

/// Chooses the page for a request.
pub fn route_request(method: Method, path: &str) -> (route: Route)
    requires
        route_defined(method, path),
    ensures
        route == route_of(method, path),
{
    if method == Method::Get && path_is(path, "/") {
        Route::Root
    } else if method == Method::Get && path_is(path, "/all") {
        Route::All
    } else if method == Method::Post && path_is(path, "/deploy") {
        Route::Deploy
    } else if bytes_start_with(path.as_bytes(), "/endpoint/".as_bytes()) {
        Route::Endpoint
    } else {
        Route::BadRequest
    }
}

/// The welcome page.
pub fn get_root() -> (response: Response)
    ensures
        response.status == StatusCode::Success,
        response.body@ == encode_utf8(ROOT_TEXT@),
{
    Response { status: StatusCode::Success, body: text_body(ROOT_TEXT) }
}

/// The listing of all deployed functions.
pub fn get_all(functions: &FunctionRegistry) -> (response: Response)
    ensures
        response.status == StatusCode::Success,
        response.body@ == encode_utf8(listing(functions.entries())),
        unique_keys(functions.entries()),
{
    proof {
        use_type_invariant(functions);
    }
    let text = functions.listing_text();
    Response { status: StatusCode::Success, body: text_body(text.as_str()) }
}

/// The answer to a request that no page serves.
pub fn bad_request() -> (response: Response)
    ensures
        response.status == StatusCode::NotFound,
        response.body@.len() == 0,
{
    Response { status: StatusCode::NotFound, body: Vec::new() }
}

} // verus!
