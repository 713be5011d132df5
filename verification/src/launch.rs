//! The command lines with which servers are started.
use crate::text::{decimal, decimal_text};
use std::path::PathBuf;
use vstd::prelude::*;

verus! {

/// A way to talk to a server.
#[derive(Debug, Clone, Copy, PartialEq, Eq, Structural)]
pub enum Transport {
    Stdio,
    Http,
}

/// An argument of a command line.
#[derive(Debug, PartialEq, Eq)]
pub enum Arg {
    Text(String),
    Path(PathBuf),
}

/// An argument of a command line, by what it says.
pub ghost enum ArgView {
    Text(Seq<char>),
    Path(PathBuf),
}

impl Arg {
    pub open spec fn view(&self) -> ArgView {
        match self {
            Arg::Text(s) => ArgView::Text(s@),
            Arg::Path(p) => ArgView::Path(*p),
        }
    }
}

/// A command line, by what its arguments say.
pub open spec fn args_view(args: Seq<Arg>) -> Seq<ArgView> {
    args.map_values(|a: Arg| a@)
}

/// Where the number of a started process is to be written.
#[derive(Debug, PartialEq, Eq)]
pub enum PidFilePath {
    /// To this file.
    At(PathBuf),
    /// To this file, with its extension replaced.
    WithExtension(PathBuf, String),
}

/// A server that is to be started.
#[derive(Debug, PartialEq, Eq)]
pub struct Launch {
    pub transport: Transport,
    /// The transport and its address, as they are shown.
    pub label: String,
    pub args: Vec<Arg>,
    /// Whether the server runs without the standard streams of this process.
    pub detached: bool,
    pub config_path: Option<PathBuf>,
    pub pid_file: Option<PidFilePath>,
}

/// A flag and the path that it gives, or nothing without a path.
pub open spec fn path_args(flag: Seq<char>, path: Option<PathBuf>) -> Seq<ArgView> {
    match path {
        Some(p) => seq![ArgView::Text(flag), ArgView::Path(p)],
        None => seq![],
    }
}

/// The command line of a server that talks over its standard streams.
pub open spec fn stdio_args(config: Option<PathBuf>, buffer_size: nat) -> Seq<ArgView> {
    seq![ArgView::Text("serve-stdio"@)] + path_args("--config"@, config) + seq![
        ArgView::Text("--buffer-size"@),
        ArgView::Text(decimal(buffer_size)),
    ]
}

/// The command line of a server that talks over HTTP. Certificate and key are only told to a server
/// that is to use TLS.
pub open spec fn http_args(
    host: Seq<char>,
    port: nat,
    config: Option<PathBuf>,
    tls: bool,
    cert: Option<PathBuf>,
    key: Option<PathBuf>,
) -> Seq<ArgView> {
    seq![
        ArgView::Text("serve-http"@),
        ArgView::Text("--host"@),
        ArgView::Text(host),
        ArgView::Text("--port"@),
        ArgView::Text(decimal(port)),
    ] + path_args("--config"@, config) + if tls {
        seq![ArgView::Text("--tls"@)] + path_args("--cert"@, cert) + path_args("--key"@, key)
    } else {
        seq![]
    }
}

/// What a server is told about the daemon that watches for changes, and about pages from anywhere.
pub open spec fn option_args(
    enable: bool,
    path: Option<PathBuf>,
    disable: bool,
    cors: bool,
) -> Seq<ArgView> {
    (if enable {
        seq![ArgView::Text("--watch"@)]
    } else {
        seq![]
    }) + path_args("--watch-path"@, path) + (if disable {
        seq![ArgView::Text("--no-watch"@)]
    } else {
        seq![]
    }) + if cors {
        seq![ArgView::Text("--cors"@)]
    } else {
        seq![]
    }
}

/// The address of an HTTP server, as it is shown.
pub open spec fn http_label(host: Seq<char>, port: nat) -> Seq<char> {
    "http://"@ + host + ":"@ + decimal(port)
}

/// Adds an argument.
pub(crate) fn push_text(args: &mut Vec<Arg>, text: &str)
    ensures
        args_view(final(args)@) == args_view(old(args)@).push(ArgView::Text(text@)),
{
    args.push(Arg::Text(String::from_str(text)));
    assert(args_view(args@) =~= args_view(old(args)@).push(ArgView::Text(text@)));
}

fn push_path(args: &mut Vec<Arg>, flag: &str, path: &Option<PathBuf>)
    ensures
        args_view(final(args)@) == args_view(old(args)@) + path_args(flag@, *path),
{
    match path {
        Some(p) => {
            push_text(args, flag);
            let ghost flagged = args@;
            args.push(Arg::Path(p.clone()));
            assert(args_view(args@) =~= args_view(flagged).push(ArgView::Path(*p)));
            assert(args_view(args@) =~= args_view(old(args)@) + path_args(flag@, *path));
        },
        None => {
            assert(args_view(args@) =~= args_view(old(args)@) + path_args(flag@, *path));
        },
    }
}

impl Launch {
    /// A server that talks over its standard streams.
    pub fn stdio(
        config: Option<PathBuf>,
        daemon: bool,
        pid_file: Option<PidFilePath>,
        buffer_size: usize,
    ) -> (r: Self)
        ensures
            r.transport == Transport::Stdio,
            r.label@ == "stdio"@,
            args_view(r.args@) == stdio_args(config, buffer_size as nat),
            r.detached == daemon,
            r.config_path == config,
            r.pid_file == pid_file,
    {
        let mut args: Vec<Arg> = Vec::new();
        push_text(&mut args, "serve-stdio");
        push_path(&mut args, "--config", &config);
        push_text(&mut args, "--buffer-size");
        push_text(&mut args, decimal_text(buffer_size as u64).as_str());
        assert(args_view(args@) =~= stdio_args(config, buffer_size as nat));
        Launch {
            transport: Transport::Stdio,
            label: String::from_str("stdio"),
            args,
            detached: daemon,
            config_path: config,
            pid_file,
        }
    }

    /// A server that talks over HTTP.
    pub fn http(
        host: &str,
        port: u16,
        config: Option<PathBuf>,
        daemon: bool,
        pid_file: Option<PidFilePath>,
        tls: bool,
        cert: Option<PathBuf>,
        key: Option<PathBuf>,
    ) -> (r: Self)
        ensures
            r.transport == Transport::Http,
            r.label@ == http_label(host@, port as nat),
            args_view(r.args@) == http_args(host@, port as nat, config, tls, cert, key),
            r.detached == daemon,
            r.config_path == config,
            r.pid_file == pid_file,
    {
        let port_text = decimal_text(port as u64);
        let mut args: Vec<Arg> = Vec::new();
        push_text(&mut args, "serve-http");
        push_text(&mut args, "--host");
        push_text(&mut args, host);
        push_text(&mut args, "--port");
        push_text(&mut args, port_text.as_str());
        push_path(&mut args, "--config", &config);
        if tls {
            push_text(&mut args, "--tls");
            push_path(&mut args, "--cert", &cert);
            push_path(&mut args, "--key", &key);
        }
        assert(args_view(args@) =~= http_args(host@, port as nat, config, tls, cert, key));
        let mut label = String::from_str("http://");
        label.append(host);
        label.append(":");
        label.append(port_text.as_str());
        Launch {
            transport: Transport::Http,
            label,
            args,
            detached: daemon,
            config_path: config,
            pid_file,
        }
    }

    /// A server for each transport, of which the first is to be started before the second.
    pub fn dual(
        host: &str,
        port: u16,
        buffer_size: usize,
        config: Option<PathBuf>,
        daemon: bool,
        pid_file: Option<PathBuf>,
    ) -> (r: (Self, Self))
        ensures
            r.0.transport == Transport::Stdio,
            r.0.label@ == "stdio"@,
            args_view(r.0.args@) == stdio_args(config, buffer_size as nat),
            r.0.detached == daemon,
            r.0.config_path == config,
            with_extension(r.0.pid_file, pid_file, "stdio.pid"@),
            pid_file matches Some(p) ==> r.0.pid_file matches Some(PidFilePath::WithExtension(q, e))
                && q == p && e@ == "stdio.pid"@,
            pid_file is None ==> r.0.pid_file is None,
            r.1.transport == Transport::Http,
            r.1.label@ == http_label(host@, port as nat),
            args_view(r.1.args@) == http_args(host@, port as nat, config, false, None, None),
            r.1.detached == daemon,
            r.1.config_path == config,
            with_extension(r.1.pid_file, pid_file, "http.pid"@),
            pid_file matches Some(p) ==> r.1.pid_file matches Some(PidFilePath::WithExtension(q, e))
                && q == p && e@ == "http.pid"@,
            pid_file is None ==> r.1.pid_file is None,
    {
        let config_again = match &config {
            Some(p) => Some(p.clone()),
            None => None,
        };
        let (stdio_pid, http_pid) = match pid_file {
            Some(p) => (
                Some(PidFilePath::WithExtension(p.clone(), String::from_str("stdio.pid"))),
                Some(PidFilePath::WithExtension(p, String::from_str("http.pid"))),
            ),
            None => (None, None),
        };
        let stdio = Launch::stdio(config_again, daemon, stdio_pid, buffer_size);
        let http = Launch::http(host, port, config, daemon, http_pid, false, None, None);
        (stdio, http)
    }

    /// The same server, told what to do about the daemon that watches for changes, and whether pages from
    /// anywhere may use it.
    pub fn with_options(
        self,
        enable: bool,
        path: Option<PathBuf>,
        disable: bool,
        cors: bool,
    ) -> (r: Self)
        ensures
            args_view(r.args@) == args_view(self.args@) + option_args(enable, path, disable, cors),
            r.transport == self.transport,
            r.label == self.label,
            r.detached == self.detached,
            r.config_path == self.config_path,
            r.pid_file == self.pid_file,
    {
        let mut args = self.args;
        if enable {
            push_text(&mut args, "--watch");
        }
        push_path(&mut args, "--watch-path", &path);
        if disable {
            push_text(&mut args, "--no-watch");
        }
        if cors {
            push_text(&mut args, "--cors");
        }
        assert(args_view(args@) =~= args_view(self.args@) + option_args(
            enable,
            path,
            disable,
            cors,
        ));
        Launch {
            transport: self.transport,
            label: self.label,
            args,
            detached: self.detached,
            config_path: self.config_path,
            pid_file: self.pid_file,
        }
    }

    /// What is said when the server cannot be started.
    pub fn spawn_failure(&self) -> (r: &'static str)
        ensures
            r@ == match (self.transport, self.detached) {
                (Transport::Stdio, true) => "Failed to spawn STDIO server in daemon mode"@,
                (Transport::Stdio, false) => "Failed to spawn STDIO server"@,
                (Transport::Http, true) => "Failed to spawn HTTP server in daemon mode"@,
                (Transport::Http, false) => "Failed to spawn HTTP server"@,
            },
    {
        match self.transport {
            Transport::Stdio => if self.detached {
                "Failed to spawn STDIO server in daemon mode"
            } else {
                "Failed to spawn STDIO server"
            },
            Transport::Http => if self.detached {
                "Failed to spawn HTTP server in daemon mode"
            } else {
                "Failed to spawn HTTP server"
            },
        }
    }
}

/// `r` is the file `path` with the extension `ext`, if there is a path.
pub open spec fn with_extension(
    r: Option<PidFilePath>,
    path: Option<PathBuf>,
    ext: Seq<char>,
) -> bool {
    match path {
        Some(p) => r matches Some(PidFilePath::WithExtension(q, e)) && q == p && e@ == ext,
        None => r is None,
    }
}

/// A server that is not to use TLS is told of no certificate and of no key.
pub proof fn law_no_tls_no_credentials(
    host: Seq<char>,
    port: nat,
    config: Option<PathBuf>,
    cert: Option<PathBuf>,
    key: Option<PathBuf>,
)
    ensures
        http_args(host, port, config, false, cert, key) == http_args(
            host,
            port,
            config,
            false,
            None,
            None,
        ),
{
}

/// A command line, argument by argument, says what its arguments say.
pub proof fn law_arguments_in_order(args: Seq<Arg>, text: String, path: PathBuf)
    ensures
        args_view(args).len() == args.len(),
        forall|i: int| 0 <= i < args.len() ==> #[trigger] args_view(args)[i] == args[i]@,
        Arg::Text(text)@ == ArgView::Text(text@),
        Arg::Path(path)@ == ArgView::Path(path),
{
}

/// Whether `value` stands directly behind the flag `flag`.
pub open spec fn has_option(args: Seq<ArgView>, flag: Seq<char>, value: ArgView) -> bool {
    exists|i: int|
        0 <= i < args.len() - 1 && #[trigger] args[i] == ArgView::Text(flag) && args[i + 1] == value
}

proof fn lemma_has_option(args: Seq<ArgView>, i: int, flag: Seq<char>, value: ArgView)
    requires
        0 <= i < args.len() - 1,
        args[i] == ArgView::Text(flag),
        args[i + 1] == value,
    ensures
        has_option(args, flag, value),
{
}

/// A server over the standard streams is told its buffer size, and its configuration if there is one.
pub proof fn law_stdio_server_is_told(config: Option<PathBuf>, path: PathBuf, buffer_size: nat)
    ensures
        stdio_args(config, buffer_size)[0] == ArgView::Text("serve-stdio"@),
        has_option(
            stdio_args(config, buffer_size),
            "--buffer-size"@,
            ArgView::Text(decimal(buffer_size)),
        ),
        has_option(stdio_args(Some(path), buffer_size), "--config"@, ArgView::Path(path)),
        stdio_args(Some(path), buffer_size).len() == 5,
        stdio_args(None, buffer_size).len() == 3,
{
    let args = stdio_args(config, buffer_size);
    lemma_has_option(
        args,
        args.len() - 2,
        "--buffer-size"@,
        ArgView::Text(decimal(buffer_size)),
    );
    lemma_has_option(stdio_args(Some(path), buffer_size), 1, "--config"@, ArgView::Path(path));
}

/// The number of arguments that tell of a path, if there is one.
pub open spec fn path_arg_count(path: Option<PathBuf>) -> nat {
    match path {
        Some(_) => 2,
        None => 0,
    }
}

/// A server over HTTP is told its host and its port, its configuration if there is one, and, exactly if it is to
/// use TLS, that it is, with certificate and key as far as there are any.
pub proof fn law_http_server_is_told(
    host: Seq<char>,
    port: nat,
    config: Option<PathBuf>,
    tls: bool,
    cert: Option<PathBuf>,
    key: Option<PathBuf>,
)
    ensures
        ({
            let args = http_args(host, port, config, tls, cert, key);
            &&& args[0] == ArgView::Text("serve-http"@)
            &&& has_option(args, "--host"@, ArgView::Text(host))
            &&& has_option(args, "--port"@, ArgView::Text(decimal(port)))
            &&& config is Some ==> has_option(args, "--config"@, ArgView::Path(config->0))
            &&& tls ==> args.contains(ArgView::Text("--tls"@))
            &&& tls && cert is Some ==> has_option(args, "--cert"@, ArgView::Path(cert->0))
            &&& tls && key is Some ==> has_option(args, "--key"@, ArgView::Path(key->0))
            &&& args.len() == 5 + path_arg_count(config) + (if tls {
                1 + path_arg_count(cert) + path_arg_count(key)
            } else {
                0
            })
        }),
{
    let args = http_args(host, port, config, tls, cert, key);
    lemma_has_option(args, 1, "--host"@, ArgView::Text(host));
    lemma_has_option(args, 3, "--port"@, ArgView::Text(decimal(port)));
    if config is Some {
        lemma_has_option(args, 5, "--config"@, ArgView::Path(config->0));
    }
    let n = 5 + path_arg_count(config) as int;
    if tls {
        assert(args[n] == ArgView::Text("--tls"@));
        if cert is Some {
            lemma_has_option(args, n + 1, "--cert"@, ArgView::Path(cert->0));
        }
        if key is Some {
            lemma_has_option(
                args,
                n + 1 + path_arg_count(cert) as int,
                "--key"@,
                ArgView::Path(key->0),
            );
        }
    }
}

/// What a server is told about the daemon and about pages from anywhere is just what was asked for: each flag
/// once, and only if it was.
pub proof fn law_options_are_told(enable: bool, path: Option<PathBuf>, disable: bool, cors: bool)
    ensures
        ({
            let args = option_args(enable, path, disable, cors);
            &&& enable ==> args.contains(ArgView::Text("--watch"@))
            &&& path is Some ==> has_option(args, "--watch-path"@, ArgView::Path(path->0))
            &&& disable ==> args.contains(ArgView::Text("--no-watch"@))
            &&& cors ==> args.contains(ArgView::Text("--cors"@))
            &&& args.len() == path_arg_count(path) + (if enable {
                1nat
            } else {
                0nat
            }) + (if disable {
                1nat
            } else {
                0nat
            }) + (if cors {
                1nat
            } else {
                0nat
            })
        }),
{
    let args = option_args(enable, path, disable, cors);
    let e = if enable {
        1int
    } else {
        0int
    };
    let p = e + path_arg_count(path) as int;
    let d = p + (if disable {
        1int
    } else {
        0int
    });
    if enable {
        assert(args[0] == ArgView::Text("--watch"@));
    }
    if path is Some {
        lemma_has_option(args, e, "--watch-path"@, ArgView::Path(path->0));
    }
    if disable {
        assert(args[p] == ArgView::Text("--no-watch"@));
    }
    if cors {
        assert(args[d] == ArgView::Text("--cors"@));
    }
}

/// The address of an HTTP server is shown with its host and its port: of two servers with one host, those with
/// different ports are shown differently.
pub proof fn law_label_shows_host_and_port(host: Seq<char>, port: nat)
    ensures
        http_label(host, port).len() == 8 + host.len() + decimal(port).len(),
        http_label(host, port).take(7) == "http://"@,
        http_label(host, port).subrange(7, 7 + host.len() as int) == host,
        http_label(host, port)[7 + host.len() as int] == ':',
        http_label(host, port).skip(8 + host.len() as int) == decimal(port),
{
    reveal_strlit("http://");
    reveal_strlit(":");
    let label = http_label(host, port);
    assert(label.take(7) =~= "http://"@);
    assert(label.subrange(7, 7 + host.len() as int) =~= host);
    assert(label.skip(8 + host.len() as int) =~= decimal(port));
}

} // verus!
