use vstd::prelude::*;
use vstd::string::StringExecFns;
use vstd::std_specs::iter::IteratorSpec;

verus! {

broadcast use vstd::string::axiom_spec_iter, vstd::string::next_postcondition;

/// Installation prefix of a default nginx build.
pub const NGX_PREFIX: &'static str = "/usr/local/nginx";
/// The nginx binary, below the prefix.
pub const NGX_SBIN_PATH: &'static str = "sbin/nginx";
/// The main configuration file, below the prefix.
pub const NGX_CONF_PATH: &'static str = "conf/nginx.conf";
/// The configuration directory, below the prefix.
pub const NGX_CONF_PREFIX: &'static str = "conf/";
/// The error log, below the prefix.
pub const NGX_ERROR_LOG_PATH: &'static str = "logs/error.log";
/// The pid file, below the prefix.
pub const NGX_PID_PATH: &'static str = "logs/nginx.pid";
/// The lock file, below the prefix.
pub const NGX_LOCK_PATH: &'static str = "logs/nginx.lock";
/// The access log, below the prefix.
pub const NGX_HTTP_LOG_PATH: &'static str = "logs/access.log";
/// Temporary files of client request bodies, below the prefix.
pub const NGX_HTTP_CLIENT_TEMP_PATH: &'static str = "client_body_temp";
/// Temporary files of proxied responses, below the prefix.
pub const NGX_HTTP_PROXY_TEMP_PATH: &'static str = "proxy_temp";
/// Temporary files of FastCGI responses, below the prefix.
pub const NGX_HTTP_FASTCGI_TEMP_PATH: &'static str = "fastcgi_temp";
/// Temporary files of uwsgi responses, below the prefix.
pub const NGX_HTTP_UWSGI_TEMP_PATH: &'static str = "uwsgi_temp";
/// Temporary files of SCGI responses, below the prefix.
pub const NGX_HTTP_SCGI_TEMP_PATH: &'static str = "scgi_temp";

/// A path that starts at the root.
pub open spec fn is_absolute(p: Seq<char>) -> bool {
    p.len() > 0 && p[0] == '/'
}

/// `p` below `base`: an absolute `p` stands alone; otherwise the two are
/// joined by one separator.
pub open spec fn joined(base: Seq<char>, p: Seq<char>) -> Seq<char> {
    if is_absolute(p) {
        p
    } else if base.len() == 0 || base.last() == '/' {
        base + p
    } else {
        base + seq!['/'] + p
    }
}

/// The first and the last character of `s`.
fn edge_chars(s: &str) -> (r: (Option<char>, Option<char>))
    ensures
        r.0 == (if s@.len() > 0 {
            Some(s@[0])
        } else {
            None::<char>
        }),
        r.1 == (if s@.len() > 0 {
            Some(s@.last())
        } else {
            None::<char>
        }),
{
    let mut it = s.chars();
    let first = it.next();
    let mut last = first;
    let ghost mut k: int = if s@.len() > 0 {
        1
    } else {
        0
    };
    loop
        invariant
            0 <= k <= s@.len(),
            it.remaining() == s@.skip(k),
            it.obeys_prophetic_iter_laws(),
            first == (if s@.len() > 0 {
                Some(s@[0])
            } else {
                None::<char>
            }),
            last == (if k > 0 {
                Some(s@[k - 1])
            } else {
                None::<char>
            }),
        ensures
            k == s@.len(),
            last == (if k > 0 {
                Some(s@[k - 1])
            } else {
                None::<char>
            }),
        decreases s@.len() - k,
    {
        match it.next() {
            Some(c) => {
                proof {
                    assert(s@.skip(k)[0] == s@[k]);
                    assert(s@.skip(k).drop_first() =~= s@.skip(k + 1));
                    k = k + 1;
                }
                last = Some(c);
            },
            None => {
                proof {
                    assert(s@.skip(k).len() == 0);
                }
                break ;
            },
        }
    }
    (first, last)
}

/// `p` below `base`, as `joined` states it.
pub fn join_path(base: &str, p: &str) -> (r: String)
    ensures
        r@ == joined(base@, p@),
{
    let (p_first, _) = edge_chars(p);
    let (_, base_last) = edge_chars(base);
    if p_first == Some('/') {
        return p.to_owned();
    }
    let mut r = base.to_owned();
    if base_last.is_some() && base_last != Some('/') {
        r.append("/");
    }
    r.append(p);
    proof {
        reveal_strlit("/");
        assert(base@ + seq!['/'] + p@ =~= base@ + "/"@ + p@);
    }
    r
}

/// Builder of a test harness for an nginx installation: its paths may be
/// given below the prefix.
pub struct NginxBuilder {
    pub prefix: String,
    pub sbin_path: String,
    pub modules_prefix: String,
    pub conf_path: String,
    pub conf_prefix: String,
    pub error_log_path: String,
    pub pid_path: String,
    pub lock_path: String,
    pub http_log_path: String,
    pub http_client_body_temp_path: String,
    pub http_proxy_temp_path: String,
    pub http_fastcgi_temp_path: String,
    pub http_uwsgi_temp_path: String,
    pub http_scgi_temp_path: String,
}

/// What the harness last saw of the nginx process.
#[derive(PartialEq, Eq, Structural, Clone, Copy, Debug)]
pub enum RunStatus {
    /// Not started or stopped through the harness yet.
    Unknown,
    /// Started successfully.
    Running,
    /// Asked to stop.
    Stopped,
}

/// Test harness of an nginx installation, with every path absolute when the
/// prefix is.
pub struct Nginx {
    pub prefix: String,
    pub sbin_path: String,
    pub modules_prefix: String,
    pub conf_path: String,
    pub conf_prefix: String,
    pub error_log_path: String,
    pub pid_path: String,
    pub lock_path: String,
    pub http_log_path: String,
    pub http_client_body_temp_path: String,
    pub http_proxy_temp_path: String,
    pub http_fastcgi_temp_path: String,
    pub http_uwsgi_temp_path: String,
    pub http_scgi_temp_path: String,
    pub status: RunStatus,
}

/// `b` has nginx's default layout below `prefix`.
pub open spec fn default_layout(b: NginxBuilder, prefix: Seq<char>) -> bool {
    &&& b.prefix@ == prefix
    &&& b.sbin_path@ == NGX_SBIN_PATH@
    &&& b.modules_prefix@ == prefix
    &&& b.conf_path@ == NGX_CONF_PATH@
    &&& b.conf_prefix@ == NGX_CONF_PREFIX@
    &&& b.error_log_path@ == NGX_ERROR_LOG_PATH@
    &&& b.pid_path@ == NGX_PID_PATH@
    &&& b.lock_path@ == NGX_LOCK_PATH@
    &&& b.http_log_path@ == NGX_HTTP_LOG_PATH@
    &&& b.http_client_body_temp_path@ == NGX_HTTP_CLIENT_TEMP_PATH@
    &&& b.http_proxy_temp_path@ == NGX_HTTP_PROXY_TEMP_PATH@
    &&& b.http_fastcgi_temp_path@ == NGX_HTTP_FASTCGI_TEMP_PATH@
    &&& b.http_uwsgi_temp_path@ == NGX_HTTP_UWSGI_TEMP_PATH@
    &&& b.http_scgi_temp_path@ == NGX_HTTP_SCGI_TEMP_PATH@
}

impl Default for NginxBuilder {
    /// A builder for an installation in nginx's default prefix.
    fn default() -> (r: NginxBuilder)
        ensures
            default_layout(r, NGX_PREFIX@),
    {
        NginxBuilder::new(NGX_PREFIX)
    }
}

impl NginxBuilder {
    /// A builder for an installation in `prefix`, with nginx's default
    /// layout below it.
    pub fn new(prefix: &str) -> (r: NginxBuilder)
        ensures
            default_layout(r, prefix@),
    {
        NginxBuilder {
            prefix: prefix.to_owned(),
            sbin_path: NGX_SBIN_PATH.to_owned(),
            modules_prefix: prefix.to_owned(),
            conf_path: NGX_CONF_PATH.to_owned(),
            conf_prefix: NGX_CONF_PREFIX.to_owned(),
            error_log_path: NGX_ERROR_LOG_PATH.to_owned(),
            pid_path: NGX_PID_PATH.to_owned(),
            lock_path: NGX_LOCK_PATH.to_owned(),
            http_log_path: NGX_HTTP_LOG_PATH.to_owned(),
            http_client_body_temp_path: NGX_HTTP_CLIENT_TEMP_PATH.to_owned(),
            http_proxy_temp_path: NGX_HTTP_PROXY_TEMP_PATH.to_owned(),
            http_fastcgi_temp_path: NGX_HTTP_FASTCGI_TEMP_PATH.to_owned(),
            http_uwsgi_temp_path: NGX_HTTP_UWSGI_TEMP_PATH.to_owned(),
            http_scgi_temp_path: NGX_HTTP_SCGI_TEMP_PATH.to_owned(),
        }
    }

    /// Sets another configuration file.
    pub fn conf_path(self, path: String) -> (r: NginxBuilder)
        ensures
            r == (NginxBuilder { conf_path: path, ..self }),
    {
        NginxBuilder { conf_path: path, ..self }
    }

    /// The harness: each relative path is taken below the prefix.
    pub fn build(self) -> (r: Nginx)
        ensures
            r.prefix@ == self.prefix@,
            r.sbin_path@ == joined(self.prefix@, self.sbin_path@),
            r.modules_prefix@ == joined(self.prefix@, self.modules_prefix@),
            r.conf_path@ == joined(self.prefix@, self.conf_path@),
            r.conf_prefix@ == joined(self.prefix@, self.conf_prefix@),
            r.error_log_path@ == joined(self.prefix@, self.error_log_path@),
            r.pid_path@ == joined(self.prefix@, self.pid_path@),
            r.lock_path@ == joined(self.prefix@, self.lock_path@),
            r.http_log_path@ == joined(self.prefix@, self.http_log_path@),
            r.http_client_body_temp_path@ == joined(
                self.prefix@,
                self.http_client_body_temp_path@,
            ),
            r.http_proxy_temp_path@ == joined(self.prefix@, self.http_proxy_temp_path@),
            r.http_fastcgi_temp_path@ == joined(self.prefix@, self.http_fastcgi_temp_path@),
            r.http_uwsgi_temp_path@ == joined(self.prefix@, self.http_uwsgi_temp_path@),
            r.http_scgi_temp_path@ == joined(self.prefix@, self.http_scgi_temp_path@),
            r.status == RunStatus::Unknown,
    {
        let p = self.prefix.as_str();
        let sbin_path = join_path(p, self.sbin_path.as_str());
        let modules_prefix = join_path(p, self.modules_prefix.as_str());
        let conf_path = join_path(p, self.conf_path.as_str());
        let conf_prefix = join_path(p, self.conf_prefix.as_str());
        let error_log_path = join_path(p, self.error_log_path.as_str());
        let pid_path = join_path(p, self.pid_path.as_str());
        let lock_path = join_path(p, self.lock_path.as_str());
        let http_log_path = join_path(p, self.http_log_path.as_str());
        let http_client_body_temp_path = join_path(p, self.http_client_body_temp_path.as_str());
        let http_proxy_temp_path = join_path(p, self.http_proxy_temp_path.as_str());
        let http_fastcgi_temp_path = join_path(p, self.http_fastcgi_temp_path.as_str());
        let http_uwsgi_temp_path = join_path(p, self.http_uwsgi_temp_path.as_str());
        let http_scgi_temp_path = join_path(p, self.http_scgi_temp_path.as_str());
        Nginx {
            prefix: self.prefix,
            sbin_path,
            modules_prefix,
            conf_path,
            conf_prefix,
            error_log_path,
            pid_path,
            lock_path,
            http_log_path,
            http_client_body_temp_path,
            http_proxy_temp_path,
            http_fastcgi_temp_path,
            http_uwsgi_temp_path,
            http_scgi_temp_path,
            status: RunStatus::Unknown,
        }
    }
}

impl Nginx {
    /// Records an attempt to start nginx: only a successful one marks it
    /// running.
    pub fn record_start(&mut self, succeeded: bool)
        ensures
            *final(self) == (Nginx {
                status: if succeeded {
                    RunStatus::Running
                } else {
                    old(self).status
                },
                ..*old(self)
            }),
    {
        if succeeded {
            self.status = RunStatus::Running;
        }
    }

    /// Records a request to stop nginx.
    pub fn record_stop(&mut self)
        ensures
            *final(self) == (Nginx { status: RunStatus::Stopped, ..*old(self) }),
    {
        self.status = RunStatus::Stopped;
    }

    /// Must nginx be stopped when the harness goes away? Yes unless it was
    /// stopped already: a process of unknown state is stopped too.
    pub fn needs_stop(&self) -> (r: bool)
        ensures
            r == (self.status != RunStatus::Stopped),
    {
        self.status != RunStatus::Stopped
    }

    /// The installation prefix.
    pub fn prefix(&self) -> (r: &str)
        ensures
            r@ == self.prefix@,
    {
        self.prefix.as_str()
    }

    /// The nginx binary.
    pub fn bin_path(&self) -> (r: &str)
        ensures
            r@ == self.sbin_path@,
    {
        self.sbin_path.as_str()
    }

    /// The directory of dynamic modules.
    pub fn modules_prefix(&self) -> (r: &str)
        ensures
            r@ == self.modules_prefix@,
    {
        self.modules_prefix.as_str()
    }

    /// The main configuration file.
    pub fn conf_path(&self) -> (r: &str)
        ensures
            r@ == self.conf_path@,
    {
        self.conf_path.as_str()
    }

    /// The configuration directory.
    pub fn conf_prefix(&self) -> (r: &str)
        ensures
            r@ == self.conf_prefix@,
    {
        self.conf_prefix.as_str()
    }

    /// The error log.
    pub fn error_log_path(&self) -> (r: &str)
        ensures
            r@ == self.error_log_path@,
    {
        self.error_log_path.as_str()
    }

    /// The pid file.
    pub fn pid_path(&self) -> (r: &str)
        ensures
            r@ == self.pid_path@,
    {
        self.pid_path.as_str()
    }

    /// The lock file.
    pub fn lock_path(&self) -> (r: &str)
        ensures
            r@ == self.lock_path@,
    {
        self.lock_path.as_str()
    }

    /// The access log.
    pub fn http_log_path(&self) -> (r: &str)
        ensures
            r@ == self.http_log_path@,
    {
        self.http_log_path.as_str()
    }

    /// Temporary files of client request bodies.
    pub fn http_client_body_temp_path(&self) -> (r: &str)
        ensures
            r@ == self.http_client_body_temp_path@,
    {
        self.http_client_body_temp_path.as_str()
    }

    /// Temporary files of proxied responses.
    pub fn http_proxy_temp_path(&self) -> (r: &str)
        ensures
            r@ == self.http_proxy_temp_path@,
    {
        self.http_proxy_temp_path.as_str()
    }

    /// Temporary files of FastCGI responses.
    pub fn http_fastcgi_temp_path(&self) -> (r: &str)
        ensures
            r@ == self.http_fastcgi_temp_path@,
    {
        self.http_fastcgi_temp_path.as_str()
    }

    /// Temporary files of uwsgi responses.
    pub fn http_uwsgi_temp_path(&self) -> (r: &str)
        ensures
            r@ == self.http_uwsgi_temp_path@,
    {
        self.http_uwsgi_temp_path.as_str()
    }

    /// Temporary files of SCGI responses.
    pub fn http_scgi_temp_path(&self) -> (r: &str)
        ensures
            r@ == self.http_scgi_temp_path@,
    {
        self.http_scgi_temp_path.as_str()
    }
}

} // verus!
