[package]
name = "rolldown_deno"
version = "0.1.0"
edition = "2021"
publish = false

[dependencies]
async-trait = "0.1"
deno_cache_dir = { version = "=0.24.0", features = ["sync"] }
deno_error = "=0.7.0"
deno_graph = { version = "=0.98.1", default-features = false }
deno_npm_cache = "=0.32.0"
deno_npm_installer = "=0.8.0"
deno_path_util = "=0.6.1"
deno_resolver = { version = "=0.44.0", features = ["graph", "sync"] }
deno_semver = "=0.9.0"
node_resolver = { version = "=0.51.0", features = ["sync"] }
oxc = { version = "=0.82.3", features = ["ast_visit"] }
reqwest = { version = "=0.12.28", default-features = false, features = ["rustls-tls"] }
sys_traits = { version = "=0.1.17", features = ["real"] }
tokio = { version = "1", features = ["macros", "rt"] }
url = "=2.5.8"
