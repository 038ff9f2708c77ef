//! The frozen router: which handler, file or not-found response answers a
//! request.
//!
//! The router reads no file itself. Where an answer depends on a file it
//! names the file in a `Step::Read`; the caller reads it and hands what it got
//! to `Pony::resume`, until a step ends the exchange.

use vstd::prelude::*;
use vstd::string::*;
use crate::decode::{decoded_path, percent_decode_utf8};
use crate::extensions::ExtensionSet;
use crate::message::{empty_not_found, file_response, page_response, ETag, Method, Response, ResponseView};
use crate::paths::{ends_with, has_known_extension, has_suffix, names_known_file, resolve, resolved};
use crate::routes::RouteTable;

verus! {

/// A set of routes and settings, fixed once it is built.
pub struct Pony<H> {
    pub gets: RouteTable<H>,
    pub posts: RouteTable<H>,
    pub puts: RouteTable<H>,
    pub deletes: RouteTable<H>,
    pub static_path: String,
    pub static_enabled: bool,
    pub not_found_path: String,
    pub custom_not_found: bool,
    pub known_extensions: ExtensionSet,
    pub static_logging: bool,
    pub use_gzip: bool,
    pub etag: ETag,
}

/// What a `Pony` holds.
pub struct PonyView<H> {
    pub gets: Map<Seq<char>, H>,
    pub posts: Map<Seq<char>, H>,
    pub puts: Map<Seq<char>, H>,
    pub deletes: Map<Seq<char>, H>,
    pub static_path: Seq<char>,
    pub static_enabled: bool,
    pub not_found_path: Seq<char>,
    pub custom_not_found: bool,
    pub known_extensions: Set<Seq<char>>,
    pub static_logging: bool,
    pub use_gzip: bool,
    pub etag: ETag,
}

impl<H> View for Pony<H> {
    type V = PonyView<H>;

    open spec fn view(&self) -> PonyView<H> {
        PonyView {
            gets: self.gets@,
            posts: self.posts@,
            puts: self.puts@,
            deletes: self.deletes@,
            static_path: self.static_path@,
            static_enabled: self.static_enabled,
            not_found_path: self.not_found_path@,
            custom_not_found: self.custom_not_found,
            known_extensions: self.known_extensions@,
            static_logging: self.static_logging,
            use_gzip: self.use_gzip,
            etag: self.etag,
        }
    }
}

/// What a file was asked for, and so what follows once it was read or not.
#[derive(Debug)]
pub enum Pending {
    /// The compressed sibling of a static file. `plain` is the file itself,
    /// which is tried next if the sibling cannot be read.
    Compressed { plain: String, wasm: bool },
    /// A static file, as it is on disk.
    Plain { wasm: bool },
    /// The page that is shown for what was not found.
    NotFoundPage,
}

/// What a `Pending` holds.
pub enum PendingView {
    Compressed { plain: Seq<char>, wasm: bool },
    Plain { wasm: bool },
    NotFoundPage,
}

impl View for Pending {
    type V = PendingView;

    open spec fn view(&self) -> PendingView {
        match self {
            Pending::Compressed { plain, wasm } => PendingView::Compressed {
                plain: plain@,
                wasm: *wasm,
            },
            Pending::Plain { wasm } => PendingView::Plain { wasm: *wasm },
            Pending::NotFoundPage => PendingView::NotFoundPage,
        }
    }
}

/// What the caller does next for a request.
#[derive(Debug)]
pub enum Step<H> {
    /// Call this handler with the request: its response is the answer.
    Invoke(H),
    /// Read this file and hand the result, with `pending`, to `Pony::resume`.
    Read { file: String, pending: Pending },
    /// Send this response.
    Respond(Response),
    /// The not-found page could not be read. Send this response, and report
    /// that the page is missing.
    PageMissing(Response),
}

/// What a `Step` holds.
pub enum StepView<H> {
    Invoke(H),
    Read { file: Seq<char>, pending: PendingView },
    Respond(ResponseView),
    PageMissing(ResponseView),
}

impl<H> View for Step<H> {
    type V = StepView<H>;

    open spec fn view(&self) -> StepView<H> {
        match self {
            Step::Invoke(handler) => StepView::Invoke(*handler),
            Step::Read { file, pending } => StepView::Read { file: file@, pending: pending@ },
            Step::Respond(response) => StepView::Respond(response@),
            Step::PageMissing(response) => StepView::PageMissing(response@),
        }
    }
}

/// How an exchange ends.
pub enum Served<H> {
    /// The handler answers.
    Handler(H),
    /// The router's own response is sent.
    Reply(ResponseView),
    /// The router's own response is sent, and the not-found page is reported
    /// missing.
    Degraded(ResponseView),
}

/// What reading `file` gives on a disk that holds `disk`: the contents of a
/// file that can be read, nothing for any other.
pub open spec fn read_from(disk: Map<Seq<char>, Seq<u8>>, file: Seq<char>) -> Option<Seq<u8>> {
    if disk.contains_key(file) {
        Some(disk[file])
    } else {
        None
    }
}

impl<H> PonyView<H> {
    /// The routes of `method`. A method that cannot be routed has none.
    pub open spec fn routes(self, method: Method) -> Map<Seq<char>, H> {
        match method {
            Method::Get => self.gets,
            Method::Post => self.posts,
            Method::Put => self.puts,
            Method::Delete => self.deletes,
            Method::Other => Map::empty(),
        }
    }

    /// These settings with `handler` registered for `method` and `path`, in
    /// place of the handler that they had. For a method that cannot be
    /// routed, these settings.
    pub open spec fn with_route(self, method: Method, path: Seq<char>, handler: H) -> PonyView<H> {
        match method {
            Method::Get => PonyView { gets: self.gets.insert(path, handler), ..self },
            Method::Post => PonyView { posts: self.posts.insert(path, handler), ..self },
            Method::Put => PonyView { puts: self.puts.insert(path, handler), ..self },
            Method::Delete => PonyView { deletes: self.deletes.insert(path, handler), ..self },
            Method::Other => self,
        }
    }

    /// The handler registered for `method` and exactly `path`, if any.
    pub open spec fn route(self, method: Method, path: Seq<char>) -> Option<H> {
        let table = self.routes(method);
        if table.contains_key(path) {
            Some(table[path])
        } else {
            None
        }
    }

    /// The static file that answers `path`.
    pub open spec fn static_target(self, path: Seq<char>) -> Seq<char> {
        resolved(self.static_path, self.known_extensions, path)
    }

    /// The step that answers what no route and no file answers.
    pub open spec fn not_found(self) -> StepView<H> {
        if self.custom_not_found {
            StepView::Read { file: self.not_found_path, pending: PendingView::NotFoundPage }
        } else {
            StepView::Respond(empty_not_found())
        }
    }

    /// The first step towards serving the static file for `path`: with
    /// compression on, its compressed sibling is asked for before the file.
    pub open spec fn static_file(self, path: Seq<char>) -> StepView<H> {
        let plain = self.static_target(path);
        let wasm = ends_with(path, ".wasm"@);
        if self.use_gzip {
            StepView::Read { file: plain + ".gz"@, pending: PendingView::Compressed { plain, wasm } }
        } else {
            StepView::Read { file: plain, pending: PendingView::Plain { wasm } }
        }
    }

    /// The first step for a GET request.
    pub open spec fn get(self, path: Seq<char>) -> StepView<H> {
        match self.route(Method::Get, path) {
            Some(handler) => StepView::Invoke(handler),
            None => if self.static_enabled {
                match decoded_path(path) {
                    Some(decoded) => self.static_file(decoded),
                    None => self.not_found(),
                }
            } else {
                self.not_found()
            },
        }
    }

    /// The first step for a request.
    pub open spec fn call(self, method: Method, path: Seq<char>) -> StepView<H> {
        match method {
            Method::Get => self.get(path),
            _ => match self.route(method, path) {
                Some(handler) => StepView::Invoke(handler),
                None => self.not_found(),
            },
        }
    }

    /// The step that follows a read: `contents` is what was read, or nothing
    /// if the file could not be read.
    pub open spec fn resume(self, pending: PendingView, contents: Option<Seq<u8>>) -> StepView<H> {
        match (pending, contents) {
            (PendingView::Compressed { plain, wasm }, Some(bytes)) => StepView::Respond(
                file_response(bytes, true, wasm, self.etag),
            ),
            (PendingView::Compressed { plain, wasm }, None) => StepView::Read {
                file: plain,
                pending: PendingView::Plain { wasm },
            },
            (PendingView::Plain { wasm }, Some(bytes)) => StepView::Respond(
                file_response(bytes, false, wasm, self.etag),
            ),
            (PendingView::Plain { wasm }, None) => self.not_found(),
            (PendingView::NotFoundPage, Some(bytes)) => StepView::Respond(page_response(bytes)),
            (PendingView::NotFoundPage, None) => StepView::PageMissing(empty_not_found()),
        }
    }

    /// What answers a request for which there is no route and no file.
    pub open spec fn not_found_outcome(self, disk: Map<Seq<char>, Seq<u8>>) -> Served<H> {
        if !self.custom_not_found {
            Served::Reply(empty_not_found())
        } else if disk.contains_key(self.not_found_path) {
            Served::Reply(page_response(disk[self.not_found_path]))
        } else {
            Served::Degraded(empty_not_found())
        }
    }

    /// The response that serves the static file for `path`, or nothing if
    /// neither the file nor, with compression on, its compressed sibling can
    /// be read. The sibling is preferred.
    pub open spec fn static_outcome(self, disk: Map<Seq<char>, Seq<u8>>, path: Seq<char>) -> Option<
        ResponseView,
    > {
        let plain = self.static_target(path);
        let wasm = ends_with(path, ".wasm"@);
        if self.use_gzip && disk.contains_key(plain + ".gz"@) {
            Some(file_response(disk[plain + ".gz"@], true, wasm, self.etag))
        } else if disk.contains_key(plain) {
            Some(file_response(disk[plain], false, wasm, self.etag))
        } else {
            None
        }
    }

    /// How the exchange for a request ends on a disk that holds `disk`: with
    /// the handler of its route; else, for a GET and with static serving on,
    /// with the static file for its decoded path; else with what answers the
    /// not found.
    pub open spec fn outcome(
        self,
        disk: Map<Seq<char>, Seq<u8>>,
        method: Method,
        path: Seq<char>,
    ) -> Served<H> {
        match self.route(method, path) {
            Some(handler) => Served::Handler(handler),
            None => {
                let file = if method == Method::Get && self.static_enabled {
                    match decoded_path(path) {
                        Some(decoded) => self.static_outcome(disk, decoded),
                        None => None,
                    }
                } else {
                    None
                };
                match file {
                    Some(response) => Served::Reply(response),
                    None => self.not_found_outcome(disk),
                }
            },
        }
    }

    /// How many reads a step can still lead to.
    pub open spec fn reads_left(step: StepView<H>) -> nat {
        match step {
            StepView::Read { file, pending: PendingView::Compressed { .. } } => 3,
            StepView::Read { file, pending: PendingView::Plain { .. } } => 2,
            StepView::Read { file, pending: PendingView::NotFoundPage } => 1,
            _ => 0,
        }
    }

    /// How the exchange ends when the caller, from `step` on, reads each file
    /// asked for from `disk` and resumes until a step asks for none.
    pub open spec fn run(self, disk: Map<Seq<char>, Seq<u8>>, step: StepView<H>) -> Served<H>
        decreases Self::reads_left(step),
    {
        match step {
            StepView::Invoke(handler) => Served::Handler(handler),
            StepView::Respond(response) => Served::Reply(response),
            StepView::PageMissing(response) => Served::Degraded(response),
            StepView::Read { file, pending } => self.run(
                disk,
                self.resume(pending, read_from(disk, file)),
            ),
        }
    }
}

/// Every read brings the exchange nearer to its end: the step that follows
/// a read can lead to fewer reads than the read itself, and no exchange
/// takes more than three.
pub proof fn lemma_resume_progress<H>(
    pony: PonyView<H>,
    file: Seq<char>,
    pending: PendingView,
    contents: Option<Seq<u8>>,
)
    ensures
        PonyView::reads_left(pony.resume(pending, contents)) < PonyView::reads_left(
            StepView::<H>::Read { file, pending },
        ) <= 3,
{
}

/// From the step that answers the not found, the exchange ends with the
/// not-found page if one is set and can be read, and with the empty
/// not-found response otherwise.
pub proof fn lemma_not_found_runs<H>(pony: PonyView<H>, disk: Map<Seq<char>, Seq<u8>>)
    ensures
        pony.run(disk, pony.not_found()) == pony.not_found_outcome(disk),
{
    reveal_with_fuel(PonyView::run, 2);
}

/// From the first step for a static file, the exchange ends with the
/// compressed sibling if compression is on and the sibling can be read; else
/// with the file itself if it can be read; else, when neither can be read,
/// as for the not found.
pub proof fn lemma_static_file_runs<H>(
    pony: PonyView<H>,
    disk: Map<Seq<char>, Seq<u8>>,
    path: Seq<char>,
)
    ensures
        pony.run(disk, pony.static_file(path)) == (if pony.use_gzip && disk.contains_key(
            pony.static_target(path) + ".gz"@,
        ) {
            Served::Reply(
                file_response(
                    disk[pony.static_target(path) + ".gz"@],
                    true,
                    ends_with(path, ".wasm"@),
                    pony.etag,
                ),
            )
        } else if disk.contains_key(pony.static_target(path)) {
            Served::Reply(
                file_response(
                    disk[pony.static_target(path)],
                    false,
                    ends_with(path, ".wasm"@),
                    pony.etag,
                ),
            )
        } else {
            pony.not_found_outcome(disk)
        }),
        pony.run(disk, pony.static_file(path)) == match pony.static_outcome(disk, path) {
            Some(response) => Served::Reply(response),
            None => pony.not_found_outcome(disk),
        },
{
    reveal_with_fuel(PonyView::run, 3);
    lemma_not_found_runs(pony, disk);
}

/// Whoever reads the files asked for and resumes ends where `outcome` says,
/// whatever the disk holds.
pub proof fn lemma_run_reaches_outcome<H>(
    pony: PonyView<H>,
    disk: Map<Seq<char>, Seq<u8>>,
    method: Method,
    path: Seq<char>,
)
    ensures
        pony.run(disk, pony.call(method, path)) == pony.outcome(disk, method, path),
{
    lemma_not_found_runs(pony, disk);
    if method == Method::Get && pony.route(method, path) is None && pony.static_enabled {
        if let Some(decoded) = decoded_path(path) {
            lemma_static_file_runs(pony, disk, decoded);
        }
    }
}

/// A request whose method and path have a route ends with the handler of
/// that route: no file is asked for, whatever the settings and the disk.
pub proof fn lemma_route_wins<H>(
    pony: PonyView<H>,
    disk: Map<Seq<char>, Seq<u8>>,
    method: Method,
    path: Seq<char>,
)
    requires
        pony.route(method, path) is Some,
    ensures
        pony.call(method, path) == StepView::Invoke(pony.route(method, path)->0),
        pony.run(disk, pony.call(method, path)) == Served::Handler(pony.route(method, path)->0),
{
}

/// Once a handler is registered for a method and a path, a request with that
/// method and exactly that path goes to that handler.
pub proof fn lemma_registered_route_is_called<H>(
    pony: PonyView<H>,
    disk: Map<Seq<char>, Seq<u8>>,
    method: Method,
    path: Seq<char>,
    handler: H,
)
    requires
        method != Method::Other,
    ensures
        pony.with_route(method, path, handler).route(method, path) == Some(handler),
        pony.with_route(method, path, handler).call(method, path) == StepView::Invoke(handler),
        pony.with_route(method, path, handler).run(
            disk,
            pony.with_route(method, path, handler).call(method, path),
        ) == Served::Handler(handler),
{
}

/// Registering a route changes the answer to no other request: not to one
/// with another path, nor to one with another method.
pub proof fn lemma_other_routes_unchanged<H>(
    pony: PonyView<H>,
    method: Method,
    path: Seq<char>,
    handler: H,
    other_method: Method,
    other_path: Seq<char>,
)
    requires
        other_method != method || other_path != path,
    ensures
        pony.with_route(method, path, handler).call(other_method, other_path) == pony.call(
            other_method,
            other_path,
        ),
{
}

/// Registering the same handler for the same method and path again changes
/// nothing: the table holds one entry for the path, as after the first time.
pub proof fn lemma_register_again<H>(
    pony: PonyView<H>,
    method: Method,
    path: Seq<char>,
    handler: H,
)
    requires
        pony.gets.dom().finite(),
        pony.posts.dom().finite(),
        pony.puts.dom().finite(),
        pony.deletes.dom().finite(),
    ensures
        pony.with_route(method, path, handler).with_route(method, path, handler)
            == pony.with_route(method, path, handler),
        pony.with_route(method, path, handler).with_route(method, path, handler).routes(
            method,
        ).len() == pony.with_route(method, path, handler).routes(method).len(),
        method != Method::Other ==> pony.with_route(method, path, handler).routes(method).len()
            == if pony.routes(method).contains_key(path) {
            pony.routes(method).len()
        } else {
            pony.routes(method).len() + 1
        },
{
    let once = pony.with_route(method, path, handler);
    let twice = once.with_route(method, path, handler);
    assert(twice.gets =~= once.gets);
    assert(twice.posts =~= once.posts);
    assert(twice.puts =~= once.puts);
    assert(twice.deletes =~= once.deletes);
}

/// A GET without a route: with static serving off it ends as the not found
/// does; with static serving on it ends as the static file for its decoded
/// path does, and as the not found does if the path cannot be decoded.
pub proof fn lemma_get_without_route<H>(
    pony: PonyView<H>,
    disk: Map<Seq<char>, Seq<u8>>,
    path: Seq<char>,
)
    requires
        !pony.gets.contains_key(path),
    ensures
        !pony.static_enabled ==> pony.run(disk, pony.call(Method::Get, path))
            == pony.not_found_outcome(disk),
        pony.static_enabled ==> pony.run(disk, pony.call(Method::Get, path)) == (
        match decoded_path(path) {
            Some(decoded) => match pony.static_outcome(disk, decoded) {
                Some(response) => Served::Reply(response),
                None => pony.not_found_outcome(disk),
            },
            None => pony.not_found_outcome(disk),
        }),
{
    lemma_run_reaches_outcome(pony, disk, Method::Get, path);
}

/// A request that is no GET and has no route ends as the not found does:
/// no static file is asked for.
pub proof fn lemma_other_without_route<H>(
    pony: PonyView<H>,
    disk: Map<Seq<char>, Seq<u8>>,
    method: Method,
    path: Seq<char>,
)
    requires
        method != Method::Get,
        pony.route(method, path) is None,
    ensures
        pony.call(method, path) == pony.not_found(),
        pony.run(disk, pony.call(method, path)) == pony.not_found_outcome(disk),
{
    lemma_not_found_runs(pony, disk);
}

impl<H: Copy> Pony<H> {
    /// Whether `path` names a file of a known kind: it does not end with a
    /// slash and what follows its last dot is a known extension.
    pub fn check_for_known_ext(&self, path: &str) -> (known: bool)
        ensures
            known == has_known_extension(self@.known_extensions, path@),
    {
        names_known_file(&self.known_extensions, path)
    }

    /// The response for what was not found: the status says so, the body is
    /// empty.
    pub fn default_not_found() -> (response: Response)
        ensures
            response@ == empty_not_found(),
    {
        Response::not_found()
    }

    /// The step that answers what no route and no file answers: the read of
    /// the not-found page if one is set, else the empty not-found response.
    pub fn not_found(&self) -> (step: Step<H>)
        ensures
            step@ == self@.not_found(),
    {
        if self.custom_not_found {
            Step::Read { file: self.not_found_path.clone(), pending: Pending::NotFoundPage }
        } else {
            Step::Respond(Self::default_not_found())
        }
    }

    /// The first step towards serving the static file for `path`, which is
    /// the request path with its escapes decoded.
    pub fn static_file(&self, path: &str) -> (step: Step<H>)
        ensures
            step@ == self@.static_file(path@),
    {
        let plain = resolve(self.static_path.as_str(), &self.known_extensions, path);
        let wasm = has_suffix(path, ".wasm");
        if self.use_gzip {
            let mut file = plain.clone();
            file.append(".gz");
            Step::Read { file, pending: Pending::Compressed { plain, wasm } }
        } else {
            Step::Read { file: plain, pending: Pending::Plain { wasm } }
        }
    }

    /// The first step for a GET request: the handler of its route; else, with
    /// static serving on, the read of the static file for the decoded path;
    /// else what answers the not found.
    pub fn get(&self, path: &str) -> (step: Step<H>)
        ensures
            step@ == self@.get(path@),
            self@.gets.contains_key(path@) ==> step@ == StepView::Invoke(self@.gets[path@]),
    {
        match self.gets.lookup(path) {
            Some(handler) => Step::Invoke(*handler),
            None => {
                if self.static_enabled {
                    match percent_decode_utf8(path) {
                        Some(decoded) => self.static_file(decoded.as_str()),
                        None => self.not_found(),
                    }
                } else {
                    self.not_found()
                }
            },
        }
    }

    /// The first step for a request. A request whose method and path have a
    /// route goes to the handler of that route and to nothing else. Only a
    /// GET falls back to static files.
    pub fn call(&self, method: Method, path: &str) -> (step: Step<H>)
        ensures
            step@ == self@.call(method, path@),
            self@.route(method, path@) matches Some(handler) ==> step@ == StepView::Invoke(handler),
    {
        match method {
            Method::Get => self.get(path),
            Method::Post => match self.posts.lookup(path) {
                Some(handler) => Step::Invoke(*handler),
                None => self.not_found(),
            },
            Method::Put => match self.puts.lookup(path) {
                Some(handler) => Step::Invoke(*handler),
                None => self.not_found(),
            },
            Method::Delete => match self.deletes.lookup(path) {
                Some(handler) => Step::Invoke(*handler),
                None => self.not_found(),
            },
            Method::Other => self.not_found(),
        }
    }

    /// The step that follows a read. `contents` is what the file asked for
    /// holds, or nothing if it could not be read, whatever the reason.
    pub fn resume(&self, pending: Pending, contents: Option<Vec<u8>>) -> (step: Step<H>)
        ensures
            step@ == self@.resume(
                pending@,
                match contents {
                    Some(bytes) => Some(bytes@),
                    None => None,
                },
            ),
    {
        match pending {
            Pending::Compressed { plain, wasm } => match contents {
                Some(bytes) => Step::Respond(Response::file(bytes, true, wasm, self.etag)),
                None => Step::Read { file: plain, pending: Pending::Plain { wasm } },
            },
            Pending::Plain { wasm } => match contents {
                Some(bytes) => Step::Respond(Response::file(bytes, false, wasm, self.etag)),
                None => self.not_found(),
            },
            Pending::NotFoundPage => match contents {
                Some(bytes) => Step::Respond(Response::page(bytes)),
                None => Step::PageMissing(Self::default_not_found()),
            },
        }
    }
}

} // verus!
