//! The configuration of the service. Every value is checked where it is made, so that a
//! configuration that exists is a valid one.

use std::path::PathBuf;
use vstd::prelude::*;
use vstd::string::StringExecFns;

verus! {

#[verifier::external_type_specification]
#[verifier::external_body]
pub struct ExPathBuf(PathBuf);

/// A clone of a path is the same path.
pub assume_specification[ <PathBuf as Clone>::clone ](path: &PathBuf) -> (cloned: PathBuf)
    ensures
        cloned == *path,
;

/// Why a configuration is refused.
#[derive(Debug, Clone, Copy, PartialEq, Eq, Structural)]
pub enum ConfigError {
    /// A port is zero.
    ZeroPort,
    /// The cap on concurrent requests is zero.
    ZeroMaxConcurrent,
    /// The minimum pool size is larger than the maximum idle pool size.
    PoolSizes,
    /// A module ID is empty or holds a character that it may not hold.
    InvalidId,
    /// The path of a module does not point to a file.
    NotAFile,
    /// A route is empty or holds a character that it may not hold.
    InvalidRoute,
    /// A route holds two adjacent slashes.
    AdjacentSlashes,
}

impl ConfigError {
    pub fn message(&self) -> (text: &'static str)
        ensures
            text@ == match *self {
                ConfigError::ZeroPort => "Port can't be zero!"@,
                ConfigError::ZeroMaxConcurrent =>
                    "Maximum count of concurrent requests can't be zero!"@,
                ConfigError::PoolSizes =>
                    "Minimum pool size can only be lower or equal to the maximum idle pool size!"@,
                ConfigError::InvalidId =>
                    "Module ID can only contain ASCII alphanumeric characters, dashes and underscores!"@,
                ConfigError::NotAFile => "Path doesn't point to a file, or no such exists!"@,
                ConfigError::InvalidRoute =>
                    "Routes can only contain ASCII alphanumeric characters, slashes, dashes, underscores, pluses and percent symbols!"@,
                ConfigError::AdjacentSlashes => "Routes can't contain two adjacent slashes!"@,
            },
    {
        match self {
            ConfigError::ZeroPort => "Port can't be zero!",
            ConfigError::ZeroMaxConcurrent => "Maximum count of concurrent requests can't be zero!",
            ConfigError::PoolSizes =>
                "Minimum pool size can only be lower or equal to the maximum idle pool size!",
            ConfigError::InvalidId =>
                "Module ID can only contain ASCII alphanumeric characters, dashes and underscores!",
            ConfigError::NotAFile => "Path doesn't point to a file, or no such exists!",
            ConfigError::InvalidRoute =>
                "Routes can only contain ASCII alphanumeric characters, slashes, dashes, underscores, pluses and percent symbols!",
            ConfigError::AdjacentSlashes => "Routes can't contain two adjacent slashes!",
        }
    }
}

/// Where the database is.
#[derive(Debug, Clone)]
pub struct Database {
    pub host: String,
    pub port: u16,
    pub database: String,
}

impl Database {
    pub open spec fn wf(&self) -> bool {
        self.port != 0
    }

    pub fn new(host: String, port: u16, database: String) -> (made: Result<Self, ConfigError>)
        ensures
            port == 0 ==> made == Err::<Self, ConfigError>(ConfigError::ZeroPort),
            port != 0 ==> made == Ok::<Self, ConfigError>(Database { host, port, database }),
            made.is_ok() ==> made.unwrap().wf(),
    {
        if port == 0 {
            Err(ConfigError::ZeroPort)
        } else {
            Ok(Self { host, port, database })
        }
    }
}

/// The cap on requests from outside that are served at the same time.
#[derive(Debug, Clone, Copy, PartialEq, Eq, Structural)]
pub struct GlobalRequests {
    pub max_concurrent: u16,
}

impl GlobalRequests {
    pub open spec fn wf(&self) -> bool {
        self.max_concurrent != 0
    }

    pub fn new(max_concurrent: u16) -> (made: Result<Self, ConfigError>)
        ensures
            made == if max_concurrent == 0 {
                Err::<Self, ConfigError>(ConfigError::ZeroMaxConcurrent)
            } else {
                Ok::<Self, ConfigError>(GlobalRequests { max_concurrent })
            },
            made.is_ok() ==> made.unwrap().wf(),
    {
        if max_concurrent == 0 {
            Err(ConfigError::ZeroMaxConcurrent)
        } else {
            Ok(Self { max_concurrent })
        }
    }
}

/// The bounds of the pool of warm instances of each module.
#[derive(Debug, Clone, Copy, PartialEq, Eq, Structural)]
pub struct GlobalInstances {
    pub init_pool_size: u16,
    pub max_idle_pool_size: u16,
}

impl GlobalInstances {
    pub open spec fn wf(&self) -> bool {
        self.init_pool_size <= self.max_idle_pool_size
    }

    pub fn new(min_pool_size: u16, max_idle_pool_size: u16) -> (made: Result<Self, ConfigError>)
        ensures
            made == if min_pool_size <= max_idle_pool_size {
                Ok::<Self, ConfigError>(
                    GlobalInstances { init_pool_size: min_pool_size, max_idle_pool_size },
                )
            } else {
                Err::<Self, ConfigError>(ConfigError::PoolSizes)
            },
            made.is_ok() ==> made.unwrap().wf(),
    {
        if min_pool_size <= max_idle_pool_size {
            Ok(Self { init_pool_size: min_pool_size, max_idle_pool_size })
        } else {
            Err(ConfigError::PoolSizes)
        }
    }
}

#[derive(Debug, Clone, Copy, PartialEq, Eq, Structural)]
pub struct Global {
    pub requests: GlobalRequests,
    pub instances: GlobalInstances,
}

impl Global {
    pub open spec fn wf(&self) -> bool {
        self.requests.wf() && self.instances.wf()
    }
}

/// An address that the server listens on.
#[derive(Debug, Clone)]
pub struct Bind {
    pub host: String,
    pub port: u16,
}

impl Bind {
    pub open spec fn wf(&self) -> bool {
        self.port != 0
    }

    pub fn new(host: String, port: u16) -> (made: Result<Self, ConfigError>)
        ensures
            port == 0 ==> made == Err::<Self, ConfigError>(ConfigError::ZeroPort),
            port != 0 ==> made == Ok::<Self, ConfigError>(Bind { host, port }),
            made.is_ok() ==> made.unwrap().wf(),
    {
        if port == 0 {
            Err(ConfigError::ZeroPort)
        } else {
            Ok(Self { host, port })
        }
    }
}

/// Whether a character is an ASCII letter or digit.
pub open spec fn is_alphanumeric(c: char) -> bool {
    ('a' <= c && c <= 'z') || ('A' <= c && c <= 'Z') || ('0' <= c && c <= '9')
}

/// Whether a character may stand in a module ID.
pub open spec fn is_id_char(c: char) -> bool {
    is_alphanumeric(c) || c == '-' || c == '_'
}

/// Whether a character may stand in a route.
pub open spec fn is_route_char(c: char) -> bool {
    is_alphanumeric(c) || c == '/' || c == '-' || c == '_' || c == '+' || c == '%'
}

/// Whether a text is a module ID: not empty, and made of letters, digits, dashes and
/// underscores.
pub open spec fn is_id(text: Seq<char>) -> bool {
    text.len() > 0 && forall|i: int| 0 <= i < text.len() ==> is_id_char(#[trigger] text[i])
}

/// Whether a text holds two adjacent slashes.
pub open spec fn has_adjacent_slashes(text: Seq<char>) -> bool {
    exists|i: int| 0 <= i && i + 1 < text.len() && #[trigger] text[i] == '/' && text[i + 1] == '/'
}

/// Whether a text is made of the characters that may stand in a route, and is not empty.
pub open spec fn has_route_chars(text: Seq<char>) -> bool {
    text.len() > 0 && forall|i: int| 0 <= i < text.len() ==> is_route_char(#[trigger] text[i])
}

fn byte_is_alphanumeric(byte: u8) -> (yes: bool)
    ensures
        yes == is_alphanumeric(byte as char),
{
    (97 <= byte && byte <= 122) || (65 <= byte && byte <= 90) || (48 <= byte && byte <= 57)
}

/// The identifier of a module.
#[derive(Debug, Clone, PartialEq, Eq, Hash)]
pub struct Id(pub String);

impl Id {
    pub open spec fn wf(&self) -> bool {
        is_id(self.0@)
    }

    /// Takes `id` as a module ID, if it is one.
    pub fn parse(id: String) -> (parsed: Result<Self, ConfigError>)
        ensures
            is_id(id@) ==> parsed == Ok::<Self, ConfigError>(Id(id)),
            !is_id(id@) ==> parsed == Err::<Self, ConfigError>(ConfigError::InvalidId),
    {
        broadcast use vstd::string::is_ascii_spec_bytes;

        let text: &str = id.as_str();
        if !text.is_ascii() {
            // What is made of the characters of an ID is ASCII.
            assert(is_id(id@) ==> vstd::utf8::is_ascii_chars(id@));
            return Err(ConfigError::InvalidId);
        }
        let bytes: &[u8] = text.as_bytes();
        if bytes.len() == 0 {
            return Err(ConfigError::InvalidId);
        }
        let mut index: usize = 0;
        while index < bytes.len()
            invariant
                index <= bytes@.len(),
                bytes@.len() == id@.len(),
                forall|i: int| 0 <= i < id@.len() ==> bytes@[i] == id@[i] as u8,
                forall|i: int| 0 <= i < id@.len() ==> '\0' <= #[trigger] id@[i] <= '\u{7f}',
                forall|i: int| 0 <= i < index ==> is_id_char(#[trigger] id@[i]),
            decreases bytes@.len() - index,
        {
            let byte: u8 = bytes[index];
            if !(byte_is_alphanumeric(byte) || byte == 45 || byte == 95) {
                return Err(ConfigError::InvalidId);
            }
            index = index + 1;
        }
        Ok(Id(id))
    }
}

/// The path of the file that holds a module.
#[derive(Debug, Clone, PartialEq, Eq, Hash)]
pub struct Path(pub PathBuf);

impl Path {
    /// Takes `path` as the path of a module, if `is_file` says that it points to a file.
    pub fn new(path: PathBuf, is_file: bool) -> (made: Result<Self, ConfigError>)
        ensures
            made == if is_file {
                Ok::<Self, ConfigError>(Path(path))
            } else {
                Err::<Self, ConfigError>(ConfigError::NotAFile)
            },
    {
        if is_file {
            Ok(Path(path))
        } else {
            Err(ConfigError::NotAFile)
        }
    }

    pub fn into_inner(self) -> (path: PathBuf)
        ensures
            path == self.0,
    {
        self.0
    }
}

/// A module: its identifier, and where its file is.
#[derive(Debug, Clone)]
pub struct Module {
    pub id: Id,
    pub path: Path,
}

/// The path of a route below `/service`. It begins with the slash that is put in front of
/// what the configuration holds.
#[derive(Debug, Clone, PartialEq, Eq, Hash)]
pub struct RoutePath(pub String);

/// What becomes of a route of the configuration: it is refused for a character that it may
/// not hold, then for two adjacent slashes; else a slash is put in front of it.
pub open spec fn route_spec(route: Seq<char>) -> Result<Seq<char>, ConfigError> {
    if !has_route_chars(route) {
        Err(ConfigError::InvalidRoute)
    } else if has_adjacent_slashes(route) {
        Err(ConfigError::AdjacentSlashes)
    } else {
        Ok(seq!['/'] + route)
    }
}

impl RoutePath {
    pub open spec fn wf(&self) -> bool {
        exists|route: Seq<char>| route_spec(route) == Ok::<Seq<char>, ConfigError>(self.0@)
    }

    /// Takes `route` as the path of a route, if it is one.
    pub fn parse(route: String) -> (parsed: Result<Self, ConfigError>)
        ensures
            match parsed {
                Ok(path) => route_spec(route@) == Ok::<Seq<char>, ConfigError>(path.0@),
                Err(error) => route_spec(route@) == Err::<Seq<char>, ConfigError>(error),
            },
            parsed.is_ok() ==> parsed.unwrap().wf(),
    {
        broadcast use vstd::string::is_ascii_spec_bytes;

        let text: &str = route.as_str();
        if !text.is_ascii() {
            // What is made of the characters of a route is ASCII.
            assert(has_route_chars(route@) ==> vstd::utf8::is_ascii_chars(route@));
            return Err(ConfigError::InvalidRoute);
        }
        let bytes: &[u8] = text.as_bytes();
        if bytes.len() == 0 {
            return Err(ConfigError::InvalidRoute);
        }
        let mut index: usize = 0;
        while index < bytes.len()
            invariant
                index <= bytes@.len(),
                bytes@.len() == route@.len(),
                forall|i: int| 0 <= i < route@.len() ==> bytes@[i] == route@[i] as u8,
                forall|i: int| 0 <= i < route@.len() ==> '\0' <= #[trigger] route@[i] <= '\u{7f}',
                forall|i: int| 0 <= i < index ==> is_route_char(#[trigger] route@[i]),
            decreases bytes@.len() - index,
        {
            let byte: u8 = bytes[index];
            if !(byte_is_alphanumeric(byte) || byte == 47 || byte == 45 || byte == 95 || byte
                == 43 || byte == 37) {
                return Err(ConfigError::InvalidRoute);
            }
            index = index + 1;
        }
        let mut index: usize = 1;
        while index < bytes.len()
            invariant
                1 <= index <= bytes@.len(),
                has_route_chars(route@),
                bytes@.len() == route@.len(),
                forall|i: int| 0 <= i < route@.len() ==> bytes@[i] == route@[i] as u8,
                forall|i: int| 0 <= i < route@.len() ==> '\0' <= #[trigger] route@[i] <= '\u{7f}',
                forall|i: int|
                    0 <= i && i + 1 < index ==> !(#[trigger] route@[i] == '/' && route@[i + 1]
                        == '/'),
            decreases bytes@.len() - index,
        {
            if bytes[index - 1] == 47 && bytes[index] == 47 {
                assert(route@[index - 1] == '/' && route@[index - 1 + 1] == '/');
                return Err(ConfigError::AdjacentSlashes);
            }
            index = index + 1;
        }
        let path: String = String::from_str("/").concat(route.as_str());
        proof {
            reveal_strlit("/");
            assert("/"@ =~= seq!['/']);
        }
        Ok(RoutePath(path))
    }
}

/// A route: requests to `path` go to the module `module`.
#[derive(Debug, Clone)]
pub struct Route {
    pub path: RoutePath,
    pub module: Id,
}

/// The whole configuration.
#[derive(Debug, Clone)]
pub struct Config {
    pub database: Database,
    pub global: Global,
    pub binds: Vec<Bind>,
    pub modules: Vec<Module>,
    pub routes: Vec<Route>,
}

} // verus!
