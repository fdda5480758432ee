use lambda::web::config::{
    Bind, Config, ConfigError, Database, Global, GlobalInstances, GlobalRequests, Id, Module,
    Path, Route, RoutePath,
};
use std::path::PathBuf;

#[test]
fn module_ids_are_letters_digits_dashes_and_underscores() {
    for id in ["echo", "Echo-2", "a_b-C9", "_", "-", "0"] {
        assert_eq!(Id::parse(String::from(id)), Ok(Id(String::from(id))));
    }
    for id in ["", "a b", "a/b", "a.b", "\u{e9}", "a+b", "a%", "echo\n", "id\0"] {
        assert_eq!(Id::parse(String::from(id)), Err(ConfigError::InvalidId));
    }
}

#[test]
fn routes_get_a_leading_slash() {
    assert_eq!(RoutePath::parse(String::from("echo")), Ok(RoutePath(String::from("/echo"))));
    assert_eq!(
        RoutePath::parse(String::from("a/b-c_d+e%20")),
        Ok(RoutePath(String::from("/a/b-c_d+e%20")))
    );
    assert_eq!(RoutePath::parse(String::from("/echo")), Ok(RoutePath(String::from("//echo"))));
    assert_eq!(RoutePath::parse(String::from("echo/")), Ok(RoutePath(String::from("/echo/"))));
    assert_eq!(RoutePath::parse(String::from("/")), Ok(RoutePath(String::from("//"))));
}

#[test]
fn routes_with_other_characters_are_refused() {
    for route in ["", "a b", "a.b", "a?b", "\u{e9}", "a\\b", "a#", "{id}", "a//b c"] {
        assert_eq!(RoutePath::parse(String::from(route)), Err(ConfigError::InvalidRoute));
    }
}

#[test]
fn routes_with_adjacent_slashes_are_refused() {
    for route in ["a//b", "//", "//a", "a//", "a/b//c/d", "a///b"] {
        assert_eq!(RoutePath::parse(String::from(route)), Err(ConfigError::AdjacentSlashes));
    }
}

#[test]
fn the_minimum_pool_size_is_at_most_the_maximum_idle_pool_size() {
    assert_eq!(
        GlobalInstances::new(2, 4),
        Ok(GlobalInstances { init_pool_size: 2, max_idle_pool_size: 4 })
    );
    assert_eq!(
        GlobalInstances::new(4, 4),
        Ok(GlobalInstances { init_pool_size: 4, max_idle_pool_size: 4 })
    );
    assert_eq!(
        GlobalInstances::new(0, 0),
        Ok(GlobalInstances { init_pool_size: 0, max_idle_pool_size: 0 })
    );
    assert_eq!(GlobalInstances::new(5, 4), Err(ConfigError::PoolSizes));
    assert_eq!(GlobalInstances::new(1, 0), Err(ConfigError::PoolSizes));
    assert_eq!(GlobalInstances::new(u16::MAX, u16::MAX - 1), Err(ConfigError::PoolSizes));
}

#[test]
fn ports_and_the_request_cap_are_not_zero() {
    assert_eq!(GlobalRequests::new(16), Ok(GlobalRequests { max_concurrent: 16 }));
    assert_eq!(GlobalRequests::new(0), Err(ConfigError::ZeroMaxConcurrent));
    let bind = Bind::new(String::from("127.0.0.1"), 8080).unwrap();
    assert_eq!((bind.host.as_str(), bind.port), ("127.0.0.1", 8080));
    assert_eq!(Bind::new(String::from("127.0.0.1"), 0).unwrap_err(), ConfigError::ZeroPort);
    let database = Database::new(String::from("db"), 5432, String::from("lambda")).unwrap();
    assert_eq!((database.host.as_str(), database.port, database.database.as_str()), ("db", 5432, "lambda"));
    assert_eq!(
        Database::new(String::from("db"), 0, String::from("lambda")).unwrap_err(),
        ConfigError::ZeroPort
    );
}

#[test]
fn module_paths_have_to_point_to_files() {
    let path = Path::new(PathBuf::from("echo.wasm"), true).unwrap();
    assert_eq!(path, Path(PathBuf::from("echo.wasm")));
    assert_eq!(path.clone().into_inner(), PathBuf::from("echo.wasm"));
    assert_eq!(Path::new(PathBuf::from("missing.wasm"), false), Err(ConfigError::NotAFile));
}

#[test]
fn a_configuration_is_made_of_checked_parts() {
    let config = Config {
        database: Database::new(String::from("db"), 5432, String::from("lambda")).unwrap(),
        global: Global {
            requests: GlobalRequests::new(16).unwrap(),
            instances: GlobalInstances::new(2, 4).unwrap(),
        },
        binds: vec![Bind::new(String::from("0.0.0.0"), 80).unwrap()],
        modules: vec![Module {
            id: Id::parse(String::from("echo")).unwrap(),
            path: Path::new(PathBuf::from("echo.wasm"), true).unwrap(),
        }],
        routes: vec![Route {
            path: RoutePath::parse(String::from("echo")).unwrap(),
            module: Id::parse(String::from("echo")).unwrap(),
        }],
    };
    assert_eq!(config.global.instances.init_pool_size, 2);
    assert_eq!(config.routes[0].path.0, "/echo");
    assert_eq!(config.modules[0].id.0, "echo");
}

#[test]
fn config_errors_have_their_texts() {
    assert_eq!(
        ConfigError::PoolSizes.message(),
        "Minimum pool size can only be lower or equal to the maximum idle pool size!"
    );
    assert_eq!(
        ConfigError::InvalidId.message(),
        "Module ID can only contain ASCII alphanumeric characters, dashes and underscores!"
    );
    assert_eq!(
        ConfigError::InvalidRoute.message(),
        "Routes can only contain ASCII alphanumeric characters, slashes, dashes, underscores, pluses and percent symbols!"
    );
    assert_eq!(ConfigError::AdjacentSlashes.message(), "Routes can't contain two adjacent slashes!");
    assert_eq!(ConfigError::NotAFile.message(), "Path doesn't point to a file, or no such exists!");
    assert_eq!(ConfigError::ZeroPort.message(), "Port can't be zero!");
    assert_eq!(
        ConfigError::ZeroMaxConcurrent.message(),
        "Maximum count of concurrent requests can't be zero!"
    );
}
