//! Assembling the routes and settings of a router.

use vstd::prelude::*;
use vstd::string::*;
use crate::extensions::{default_extensions, listed, ExtensionSet};
use crate::message::{ETag, Method};
use crate::pony::{Pony, PonyView};
use crate::routes::RouteTable;

verus! {

/// What a path names on disk, as the caller found it.
#[derive(Clone, Copy, Debug, PartialEq, Eq, Structural)]
pub enum PathKind {
    /// Nothing is there.
    Missing,
    /// A regular file.
    File,
    /// A directory.
    Directory,
    /// Something else.
    Special,
}

/// Why a setting was refused.
#[derive(Clone, Copy, Debug, PartialEq, Eq, Structural)]
pub enum ConfigError {
    /// The directory for static files does not exist.
    StaticPathMissing,
    /// The path for static files is no directory.
    StaticPathNotDirectory,
    /// The not-found page does not exist.
    NotFoundPathMissing,
    /// The path of the not-found page is a directory.
    NotFoundPathIsDirectory,
    /// The path of the not-found page is no regular file.
    NotFoundPathNotFile,
}

impl ConfigError {
    /// The error in words.
    pub fn message(&self) -> (text: &'static str)
        ensures
            text@ == match self {
                ConfigError::StaticPathMissing => "Static path does not exist"@,
                ConfigError::StaticPathNotDirectory => "Static path must be a directory"@,
                ConfigError::NotFoundPathMissing => "Not found path does not exist"@,
                ConfigError::NotFoundPathIsDirectory => "Not found path is a directory"@,
                ConfigError::NotFoundPathNotFile => "Not found path must be a file"@,
            },
    {
        match self {
            ConfigError::StaticPathMissing => "Static path does not exist",
            ConfigError::StaticPathNotDirectory => "Static path must be a directory",
            ConfigError::NotFoundPathMissing => "Not found path does not exist",
            ConfigError::NotFoundPathIsDirectory => "Not found path is a directory",
            ConfigError::NotFoundPathNotFile => "Not found path must be a file",
        }
    }
}

/// Whether a directory for static files may be what `kind` says, and the
/// error if not.
pub open spec fn static_path_check(kind: PathKind) -> Result<(), ConfigError> {
    match kind {
        PathKind::Directory => Ok(()),
        PathKind::Missing => Err(ConfigError::StaticPathMissing),
        _ => Err(ConfigError::StaticPathNotDirectory),
    }
}

/// Whether a not-found page may be what `kind` says, and the error if not.
pub open spec fn not_found_path_check(kind: PathKind) -> Result<(), ConfigError> {
    match kind {
        PathKind::File => Ok(()),
        PathKind::Missing => Err(ConfigError::NotFoundPathMissing),
        PathKind::Directory => Err(ConfigError::NotFoundPathIsDirectory),
        PathKind::Special => Err(ConfigError::NotFoundPathNotFile),
    }
}

/// The settings of a new builder: no route, nothing switched on, the default
/// extensions.
pub open spec fn initial_settings<H>() -> PonyView<H> {
    PonyView {
        gets: Map::empty(),
        posts: Map::empty(),
        puts: Map::empty(),
        deletes: Map::empty(),
        static_path: Seq::empty(),
        static_enabled: false,
        not_found_path: Seq::empty(),
        custom_not_found: false,
        known_extensions: default_extensions(),
        static_logging: false,
        use_gzip: false,
        etag: ETag::Off,
    }
}

/// Builder for a `Pony`.
pub struct PonyBuilder<H> {
    settings: Pony<H>,
}

impl<H> View for PonyBuilder<H> {
    type V = PonyView<H>;

    closed spec fn view(&self) -> PonyView<H> {
        self.settings@
    }
}

impl<H: Copy> PonyBuilder<H> {
    /// Create a new (default) builder.
    pub fn new() -> (builder: PonyBuilder<H>)
        ensures
            builder@ == initial_settings::<H>(),
    {
        PonyBuilder {
            settings: Pony {
                gets: RouteTable::new(),
                posts: RouteTable::new(),
                puts: RouteTable::new(),
                deletes: RouteTable::new(),
                static_path: String::new(),
                static_enabled: false,
                not_found_path: String::new(),
                custom_not_found: false,
                known_extensions: ExtensionSet::standard(),
                static_logging: false,
                use_gzip: false,
                etag: ETag::Off,
            },
        }
    }

    /// The settings as they stand.
    pub fn settings(&self) -> (settings: &Pony<H>)
        ensures
            settings@ == self@,
    {
        &self.settings
    }

    /// Add a new get request.
    pub fn get(&mut self, path: &str, cb: H) -> (builder: &mut Self)
        ensures
            builder@ == old(self)@.with_route(Method::Get, path@, cb),
            *final(self) == *final(builder),
    {
        self.settings.gets.register(path, cb);
        self
    }

    /// Add a new post request.
    pub fn post(&mut self, path: &str, cb: H) -> (builder: &mut Self)
        ensures
            builder@ == old(self)@.with_route(Method::Post, path@, cb),
            *final(self) == *final(builder),
    {
        self.settings.posts.register(path, cb);
        self
    }

    /// Add a new put request.
    pub fn put(&mut self, path: &str, cb: H) -> (builder: &mut Self)
        ensures
            builder@ == old(self)@.with_route(Method::Put, path@, cb),
            *final(self) == *final(builder),
    {
        self.settings.puts.register(path, cb);
        self
    }

    /// Add a new delete request.
    pub fn delete(&mut self, path: &str, cb: H) -> (builder: &mut Self)
        ensures
            builder@ == old(self)@.with_route(Method::Delete, path@, cb),
            *final(self) == *final(builder),
    {
        self.settings.deletes.register(path, cb);
        self
    }

    /// Serve static files. `path` is the base path to search, and `kind` is
    /// what the caller found there: the setting is taken only for a
    /// directory, and is refused otherwise, with nothing changed.
    pub fn use_static(&mut self, path: &str, kind: PathKind) -> (result: Result<
        &mut Self,
        ConfigError,
    >)
        ensures
            match result {
                Ok(builder) => static_path_check(kind) is Ok && builder@ == (PonyView {
                    static_path: path@,
                    static_enabled: true,
                    ..old(self)@
                }) && *final(self) == *final(builder),
                Err(error) => static_path_check(kind) == Err::<(), ConfigError>(error)
                    && *final(self) == *old(self),
            },
    {
        match kind {
            PathKind::Directory => {
                self.settings.static_path = path.to_owned();
                self.settings.static_enabled = true;
                Ok(self)
            },
            PathKind::Missing => Err(ConfigError::StaticPathMissing),
            _ => Err(ConfigError::StaticPathNotDirectory),
        }
    }

    /// Turns on logging for attempts to find static files.
    pub fn use_static_logging(&mut self) -> (builder: &mut Self)
        ensures
            builder@ == (PonyView { static_logging: true, ..old(self)@ }),
            *final(self) == *final(builder),
    {
        self.settings.static_logging = true;
        self
    }

    /// Turns on searching for .gz files as part of the fallback when no
    /// routes are found.
    pub fn use_static_gzip(&mut self) -> (builder: &mut Self)
        ensures
            builder@ == (PonyView { use_gzip: true, ..old(self)@ }),
            *final(self) == *final(builder),
    {
        self.settings.use_gzip = true;
        self
    }

    /// Provide a custom not found html page. `path` is the path to said
    /// file, and `kind` is what the caller found there: the setting is taken
    /// only for a regular file, and is refused otherwise, with nothing
    /// changed.
    pub fn use_not_found(&mut self, path: &str, kind: PathKind) -> (result: Result<
        &mut Self,
        ConfigError,
    >)
        ensures
            match result {
                Ok(builder) => not_found_path_check(kind) is Ok && builder@ == (PonyView {
                    not_found_path: path@,
                    custom_not_found: true,
                    ..old(self)@
                }) && *final(self) == *final(builder),
                Err(error) => not_found_path_check(kind) == Err::<(), ConfigError>(error)
                    && *final(self) == *old(self),
            },
    {
        match kind {
            PathKind::File => {
                self.settings.not_found_path = path.to_owned();
                self.settings.custom_not_found = true;
                Ok(self)
            },
            PathKind::Missing => Err(ConfigError::NotFoundPathMissing),
            PathKind::Directory => Err(ConfigError::NotFoundPathIsDirectory),
            PathKind::Special => Err(ConfigError::NotFoundPathNotFile),
        }
    }

    /// Override the default known extensions. Useful if you want to limit
    /// searching to a specific set of file types.
    pub fn set_know_extensions(&mut self, list: &[&str]) -> (builder: &mut Self)
        ensures
            builder@ == (PonyView { known_extensions: listed(list@), ..old(self)@ }),
            *final(self) == *final(builder),
    {
        self.settings.known_extensions = ExtensionSet::from_list(list);
        self
    }

    /// Add new extensions to the known extension list.
    pub fn add_known_extension(&mut self, exts: &[&str]) -> (builder: &mut Self)
        ensures
            builder@ == (PonyView {
                known_extensions: old(self)@.known_extensions.union(listed(exts@)),
                ..old(self)@
            }),
            *final(self) == *final(builder),
    {
        self.settings.known_extensions.extend(exts);
        self
    }

    /// Remove extensions from the known extension list.
    pub fn remove_known_extension(&mut self, exts: &[&str]) -> (builder: &mut Self)
        ensures
            builder@ == (PonyView {
                known_extensions: old(self)@.known_extensions.difference(listed(exts@)),
                ..old(self)@
            }),
            *final(self) == *final(builder),
    {
        self.settings.known_extensions.remove_all(exts);
        self
    }

    /// Sets the tag that file responses carry. Defaults to `ETag::Off`.
    pub fn use_etag(&mut self, etag: ETag) -> (builder: &mut Self)
        ensures
            builder@ == (PonyView { etag, ..old(self)@ }),
            *final(self) == *final(builder),
    {
        self.settings.etag = etag;
        self
    }

    /// A router with the routes and settings as they stand. The builder stays
    /// as it is, and can build again.
    pub fn done(&self) -> (pony: Pony<H>)
        ensures
            pony@ == self@,
    {
        Pony {
            gets: self.settings.gets.clone(),
            posts: self.settings.posts.clone(),
            puts: self.settings.puts.clone(),
            deletes: self.settings.deletes.clone(),
            static_path: self.settings.static_path.clone(),
            static_enabled: self.settings.static_enabled,
            not_found_path: self.settings.not_found_path.clone(),
            custom_not_found: self.settings.custom_not_found,
            known_extensions: self.settings.known_extensions.clone(),
            static_logging: self.settings.static_logging,
            use_gzip: self.settings.use_gzip,
            etag: self.settings.etag,
        }
    }
}

} // verus!
