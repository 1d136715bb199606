//! The registry of callables: from a path to the handler that serves it, and
//! the dispatch of a request to its handler.
//!
//! A registry is filled when the process starts, one registration per
//! callable, and only read from then on. Registering a path again replaces
//! its handler: the last registration wins.

use crate::callable::ServerFn;
use crate::error::Failure;
use crate::request::Request;
use crate::response::{lemma_plain_text, Response, ResponseView, STATUS_BAD_REQUEST};
use dashmap::DashMap;
use vstd::prelude::*;

verus! {

/// `dashmap::DashMap`, a hash map that is shared between threads.
#[verifier::external_type_specification]
#[verifier::external_body]
#[verifier::reject_recursive_types(K)]
#[verifier::reject_recursive_types(V)]
#[verifier::reject_recursive_types(S)]
pub struct ExDashMap<K, V, S>(DashMap<K, V, S>);

/// What a map from paths to positions holds: for each path that is a key,
/// the position stored under it.
pub uninterp spec fn positions(index: DashMap<&'static str, usize>) -> Map<Seq<char>, usize>;

/// `DashMap::new`.
///
/// Trusted: the new map holds nothing.
#[verifier::external_body]
fn new_positions() -> (index: DashMap<&'static str, usize>)
    ensures
        forall|path: Seq<char>| !(#[trigger] positions(index).dom().contains(path)),
{
    DashMap::new()
}

/// `DashMap::insert`, on a map that nobody else can reach meanwhile.
///
/// Trusted: afterwards the map holds `position` under `path` and is
/// otherwise unchanged; what comes back is the position that `path` had
/// before, if it had one.
#[verifier::external_body]
fn insert_position(
    index: &mut DashMap<&'static str, usize>,
    path: &'static str,
    position: usize,
) -> (before: Option<usize>)
    ensures
        positions(*final(index)) == positions(*old(index)).insert(path@, position),
        before == if positions(*old(index)).dom().contains(path@) {
            Some(positions(*old(index))[path@])
        } else {
            None
        },
{
    index.insert(path, position)
}

/// `DashMap::get`, with the position copied out of the entry.
///
/// Trusted: what comes back is the position stored under `path`, if `path`
/// is a key.
#[verifier::external_body]
fn get_position(index: &DashMap<&'static str, usize>, path: &str) -> (position: Option<usize>)
    ensures
        position == if positions(*index).dom().contains(path@) {
            Some(positions(*index)[path@])
        } else {
            None
        },
{
    index.get(path).map(|entry| *entry.value())
}

/// A handler together with the path that it serves.
pub struct ServerFnTraitObj<H> {
    pub path: &'static str,
    pub handler: H,
}

impl<H> ServerFnTraitObj<H> {
    /// Pairs a handler with its path.
    pub fn new(path: &'static str, handler: H) -> (entry: Self)
        ensures
            entry.path == path,
            entry.handler == handler,
    {
        ServerFnTraitObj { path, handler }
    }

    /// The path that the handler serves.
    pub fn path(&self) -> (path: &'static str)
        ensures
            path == self.path,
    {
        self.path
    }

    /// Runs the handler on a request.
    pub fn run(&self, req: Request) -> (response: Response) where H: Fn(Request) -> Response
        requires
            call_requires(self.handler, (req,)),
        ensures
            call_ensures(self.handler, (req,), response),
    {
        (self.handler)(req)
    }
}

impl<H: Clone> Clone for ServerFnTraitObj<H> {
    fn clone(&self) -> (copy: Self)
        ensures
            copy.path == self.path,
            cloned(self.handler, copy.handler),
    {
        ServerFnTraitObj { path: self.path, handler: self.handler.clone() }
    }
}

impl<H: Copy> Copy for ServerFnTraitObj<H> {

}

/// The text of the answer to a request for a path that is not registered.
pub open spec fn not_found_text(path: Seq<char>) -> Seq<char> {
    "Could not find a server function at the route "@ + path
        + ". \n\nIt's likely that either\n 1. The API prefix you specify in the `#[server]` macro doesn't match the prefix at which your server function handler is mounted, or \n2. You are on a platform that doesn't support automatic server function registration and you need to call ServerFn::register_explicit() on the server function type, somewhere in your `main` function."@
}

/// The answer to a request for a path that is not registered: status 400,
/// and a text that names the path and the two likely causes.
pub fn not_found(path: &str) -> (response: Response)
    ensures
        response@ == ResponseView::plain(STATUS_BAD_REQUEST, not_found_text(path@)),
{
    let text = String::from_str("Could not find a server function at the route ").concat(
        path,
    ).concat(
        ". \n\nIt's likely that either\n 1. The API prefix you specify in the `#[server]` macro doesn't match the prefix at which your server function handler is mounted, or \n2. You are on a platform that doesn't support automatic server function registration and you need to call ServerFn::register_explicit() on the server function type, somewhere in your `main` function.",
    );
    Response::plain(STATUS_BAD_REQUEST, text)
}

/// The answer to a request for a path that is not registered names the
/// path: the path stands in the text, right behind the opening words.
pub proof fn lemma_not_found_names_path(path: Seq<char>)
    ensures
        exists|at: int|
            0 <= at && at + path.len() <= not_found_text(path).len() && #[trigger] not_found_text(
                path,
            ).subrange(at, at + path.len()) == path,
{
    let opening = "Could not find a server function at the route "@;
    let text = not_found_text(path);
    let at = opening.len() as int;
    assert(text.subrange(at, at + path.len()) =~= path);
}

/// The handlers of a server, by path.
pub struct Registry<H> {
    /// For each registered path the position of its entry.
    index: DashMap<&'static str, usize>,
    /// Every registration in the order in which it was made.
    entries: Vec<ServerFnTraitObj<H>>,
}

impl<H> View for Registry<H> {
    type V = Map<Seq<char>, ServerFnTraitObj<H>>;

    /// The entry that is registered for each path.
    closed spec fn view(&self) -> Self::V {
        Map::new(
            |path: Seq<char>| positions(self.index).dom().contains(path),
            |path: Seq<char>| self.entries[positions(self.index)[path] as int],
        )
    }
}

/// Whether `response` may answer `req` on a server with these entries: the
/// handler that is registered for the path of the request answers it, and a
/// request for a path that is not registered gets the answer that names the
/// path.
pub open spec fn dispatched<H: Fn(Request) -> Response>(
    entries: Map<Seq<char>, ServerFnTraitObj<H>>,
    req: Request,
    response: Response,
) -> bool {
    if entries.dom().contains(req@.path) {
        call_ensures(entries[req@.path].handler, (req,), response)
    } else {
        response@ == ResponseView::plain(STATUS_BAD_REQUEST, not_found_text(req@.path))
    }
}

/// Dispatch goes by the path alone: with two callables registered under
/// different paths, a request for the path of the first is answered by the
/// handler of the first, and by nothing else.
pub proof fn lemma_dispatch_by_path<H: Fn(Request) -> Response>(
    entries: Map<Seq<char>, ServerFnTraitObj<H>>,
    first: ServerFnTraitObj<H>,
    second: ServerFnTraitObj<H>,
    req: Request,
    response: Response,
)
    requires
        first.path@ != second.path@,
        req@.path == first.path@,
    ensures
        dispatched(entries.insert(first.path@, first).insert(second.path@, second), req, response)
            <==> call_ensures(first.handler, (req,), response),
{
}

/// A later registration under the same path replaces the earlier one: the
/// last registration wins.
pub proof fn lemma_last_registration_wins<H: Fn(Request) -> Response>(
    entries: Map<Seq<char>, ServerFnTraitObj<H>>,
    first: ServerFnTraitObj<H>,
    second: ServerFnTraitObj<H>,
    req: Request,
    response: Response,
)
    requires
        first.path@ == second.path@,
        req@.path == first.path@,
    ensures
        dispatched(entries.insert(first.path@, first).insert(second.path@, second), req, response)
            <==> call_ensures(second.handler, (req,), response),
{
}

/// A request is answered from the entry of its own path and from nothing
/// else: two servers that agree on the path of a request answer it alike,
/// whatever else is registered on either.
pub proof fn lemma_dispatch_is_isolated<H: Fn(Request) -> Response>(
    one: Map<Seq<char>, ServerFnTraitObj<H>>,
    other: Map<Seq<char>, ServerFnTraitObj<H>>,
    req: Request,
    response: Response,
)
    requires
        one.dom().contains(req@.path) == other.dom().contains(req@.path),
        one.dom().contains(req@.path) ==> one[req@.path] == other[req@.path],
    ensures
        dispatched(one, req, response) == dispatched(other, req, response),
{
}

/// A request for a path that is not registered is answered with status 400
/// and the text that names the path.
pub proof fn lemma_unregistered_path<H: Fn(Request) -> Response>(
    entries: Map<Seq<char>, ServerFnTraitObj<H>>,
    req: Request,
    response: Response,
)
    requires
        !entries.dom().contains(req@.path),
        dispatched(entries, req, response),
    ensures
        response@.status == STATUS_BAD_REQUEST,
        response@.text() == Ok::<Seq<char>, Failure>(not_found_text(req@.path)),
{
    lemma_plain_text(STATUS_BAD_REQUEST, not_found_text(req@.path));
}

/// What a server holds after these registrations, made in this order: each
/// entry is registered under its path, and a later entry replaces an earlier
/// one of the same path.
pub open spec fn registered<H>(entries: Seq<ServerFnTraitObj<H>>) -> Map<
    Seq<char>,
    ServerFnTraitObj<H>,
>
    decreases entries.len(),
{
    if entries.len() == 0 {
        Map::empty()
    } else {
        registered(entries.drop_last()).insert(entries.last().path@, entries.last())
    }
}

/// After any number of registrations, a path leads to the entry that was
/// registered for it last. Where all paths differ, each path leads to its
/// own entry, however many others are registered.
pub proof fn lemma_registered<H>(entries: Seq<ServerFnTraitObj<H>>, at: int)
    requires
        0 <= at < entries.len(),
        forall|later: int|
            at < later < entries.len() ==> (#[trigger] entries[later]).path@ != entries[at].path@,
    ensures
        registered(entries).dom().contains(entries[at].path@),
        registered(entries)[entries[at].path@] == entries[at],
    decreases entries.len(),
{
    if at < entries.len() - 1 {
        let earlier = entries.drop_last();
        assert(earlier[at] == entries[at]);
        assert forall|later: int| at < later < earlier.len() implies (#[trigger] earlier[later]).path@
            != earlier[at].path@ by {
            assert(earlier[later] == entries[later]);
        }
        lemma_registered(earlier, at);
        assert(entries[entries.len() - 1].path@ != entries[at].path@);
    }
}

/// A path that no registration names leads nowhere.
pub proof fn lemma_not_registered<H>(entries: Seq<ServerFnTraitObj<H>>, path: Seq<char>)
    requires
        forall|at: int| 0 <= at < entries.len() ==> (#[trigger] entries[at]).path@ != path,
    ensures
        !registered(entries).dom().contains(path),
    decreases entries.len(),
{
    if entries.len() > 0 {
        let earlier = entries.drop_last();
        assert forall|at: int| 0 <= at < earlier.len() implies (#[trigger] earlier[at]).path@
            != path by {
            assert(earlier[at] == entries[at]);
        }
        lemma_not_registered(earlier, path);
        assert(entries[entries.len() - 1].path@ != path);
    }
}

impl<H> Registry<H> {
    /// Each path of the index leads to an entry, and that entry is for the
    /// path.
    pub closed spec fn wf(&self) -> bool {
        forall|path: Seq<char>| #[trigger]
            positions(self.index).dom().contains(path) ==> positions(self.index)[path]
                < self.entries.len() && self.entries[positions(self.index)[path] as int].path@
                == path
    }

    /// A registry that holds nothing.
    pub fn new() -> (registry: Self)
        ensures
            registry.wf(),
            registry@ == Map::<Seq<char>, ServerFnTraitObj<H>>::empty(),
    {
        let registry = Registry { index: new_positions(), entries: Vec::new() };
        assert(registry@ =~= Map::<Seq<char>, ServerFnTraitObj<H>>::empty());
        registry
    }

    /// The registry of a server that starts with these entries, registered
    /// in their order.
    pub fn from_entries(entries: Vec<ServerFnTraitObj<H>>) -> (registry: Self)
        ensures
            registry.wf(),
            registry@ == registered(entries@),
    {
        let mut left = entries;
        let mut registry = Registry::new();
        let mut done: usize = 0;
        assert(entries@.take(0) =~= Seq::<ServerFnTraitObj<H>>::empty());
        while left.len() > 0
            invariant
                registry.wf(),
                done + left.len() == entries.len(),
                left@ =~= entries@.skip(done as int),
                registry@ == registered(entries@.take(done as int)),
            decreases left.len(),
        {
            let entry = left.remove(0);
            proof {
                let next = entries@.take(done + 1);
                assert(next.drop_last() =~= entries@.take(done as int));
                assert(next.last() == entry);
            }
            registry.register(entry.path, entry.handler);
            done = done + 1;
        }
        assert(entries@.take(done as int) =~= entries@);
        registry
    }

    /// Registers a handler for a path. A handler that the path had before is
    /// replaced; every other path keeps what it had.
    pub fn register(&mut self, path: &'static str, handler: H)
        requires
            old(self).wf(),
        ensures
            final(self).wf(),
            final(self)@ == old(self)@.insert(path@, (ServerFnTraitObj { path, handler })),
    {
        let position = self.entries.len();
        self.entries.push(ServerFnTraitObj::new(path, handler));
        let _ = insert_position(&mut self.index, path, position);
        assert(self@ =~= old(self)@.insert(path@, ServerFnTraitObj { path, handler }));
    }

    /// The entry that is registered for the path, if there is one.
    pub fn get(&self, path: &str) -> (found: Option<&ServerFnTraitObj<H>>)
        requires
            self.wf(),
        ensures
            match found {
                Some(entry) => self@.dom().contains(path@) && *entry == self@[path@],
                None => !self@.dom().contains(path@),
            },
    {
        match get_position(&self.index, path) {
            Some(position) => Some(&self.entries[position]),
            None => None,
        }
    }

    /// Decides where a request for a path goes: to the entry that is
    /// registered for the path, or, where none is, to the answer that names
    /// the path. No handler is run.
    pub fn route(&self, path: &str) -> (routed: Result<&ServerFnTraitObj<H>, Response>)
        requires
            self.wf(),
        ensures
            match routed {
                Ok(entry) => self@.dom().contains(path@) && *entry == self@[path@],
                Err(response) => !self@.dom().contains(path@) && response@ == ResponseView::plain(
                    STATUS_BAD_REQUEST,
                    not_found_text(path@),
                ),
            },
    {
        match self.get(path) {
            Some(entry) => Ok(entry),
            None => Err(not_found(path)),
        }
    }

    /// Each entry is registered under its own path.
    pub proof fn lemma_entry_path(&self, path: Seq<char>)
        requires
            self.wf(),
            self@.dom().contains(path),
        ensures
            self@[path].path@ == path,
    {
    }
}

/// Registers the handler of the callable `T`, under the path of `T`. A
/// handler that the path had before is replaced; every other path keeps what
/// it had.
pub fn register_explicit<T: ServerFn, H>(registry: &mut Registry<H>, handler: H)
    requires
        old(registry).wf(),
    ensures
        final(registry).wf(),
        final(registry)@ == old(registry)@.insert(
            T::PATH@,
            (ServerFnTraitObj { path: T::PATH, handler }),
        ),
{
    registry.register(T::PATH, handler);
}

/// Serves a request: the handler that is registered for the path of the
/// request answers it, and only that handler runs; a request for a path that
/// is not registered gets the answer of [`not_found`].
pub fn handle_server_fn<H: Fn(Request) -> Response>(registry: &Registry<H>, req: Request) -> (response:
    Response)
    requires
        registry.wf(),
        registry@.dom().contains(req@.path) ==> call_requires(registry@[req@.path].handler, (req,)),
    ensures
        dispatched(registry@, req, response),
{
    match registry.route(req.path.as_str()) {
        Ok(entry) => entry.run(req),
        Err(response) => response,
    }
}

} // verus!
