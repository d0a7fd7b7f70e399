# rolldown_deno

Bundles a module and everything it depends on, with modules named and found the way
Deno does it. The module to begin with is given by a `jsr:`, `https:` or `file:` URL or
by a path; the modules that it depends on can come from npm as well.

`src/` holds the rules, written in Verus. Each function states in its contract what it
returns; where an outside crate decides, the contract says so over a name for what that
crate returns. The properties that span functions are proved in the functions whose names
begin with `law_`.

| module | what it decides |
| --- | --- |
| `specifier` | which URL an entrypoint or an importer stands for, and what a module is called |
| `media` | what kind of file a module is, and how the bundler treats it |
| `syntax` | the parts of a module that can name another one |
| `module_analyzer` | what a module depends on |
| `position` | line and column of a place in a source text |
| `graph` | which module the graph holds for a URL |
| `plugin` | how the plugin resolves and loads a module, step by step |
| `http_client` | what the replies of a server mean, and which headers a request carries |
| `text` | searching and cutting texts |

Parsing URLs, package references and source texts is left to `url`, `deno_semver`,
`deno_path_util`, `deno_graph` and `oxc`. Each call into one of these crates stands in a
small function whose doc comment says what is taken on trust about it.

`app/` is the program around the library: the command line, the network, the module graph
and the bundler.
