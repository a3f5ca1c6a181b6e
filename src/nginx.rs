use vstd::prelude::*;
use vstd::string::StringExecFns;

verus! {

/// Where the nginx binary lies below an installation directory.
pub const NGINX_BIN: &'static str = "sbin/nginx";

/// An nginx installation, known by its directory.
pub struct Nginx {
    pub install_path: String,
}

impl Nginx {
    /// The installation in `path`.
    pub fn new(path: String) -> (r: Nginx)
        ensures
            r.install_path@ == path@,
    {
        Nginx { install_path: path }
    }

    /// The path of the nginx binary: `sbin/nginx` below the installation.
    pub fn bin_path(&self) -> (r: String)
        ensures
            r@ == self.install_path@ + "/"@ + NGINX_BIN@,
    {
        let mut r = self.install_path.clone();
        r.append("/");
        r.append(NGINX_BIN);
        r
    }
}

} // verus!
