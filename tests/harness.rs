use ngx::module::{Merge, MergeConfigError};
use ngx::nginx::Nginx as Install;
use ngx::test_util::{join_path, NginxBuilder};

#[test]
fn builder_puts_relative_paths_below_prefix() {
    let n = NginxBuilder::new("/opt/nginx").build();
    assert_eq!(n.prefix(), "/opt/nginx");
    assert_eq!(n.bin_path(), "/opt/nginx/sbin/nginx");
    assert_eq!(n.modules_prefix(), "/opt/nginx");
    assert_eq!(n.conf_path(), "/opt/nginx/conf/nginx.conf");
    assert_eq!(n.conf_prefix(), "/opt/nginx/conf/");
    assert_eq!(n.error_log_path(), "/opt/nginx/logs/error.log");
    assert_eq!(n.pid_path(), "/opt/nginx/logs/nginx.pid");
    assert_eq!(n.lock_path(), "/opt/nginx/logs/nginx.lock");
    assert_eq!(n.http_log_path(), "/opt/nginx/logs/access.log");
    assert_eq!(n.http_client_body_temp_path(), "/opt/nginx/client_body_temp");
    assert_eq!(n.http_proxy_temp_path(), "/opt/nginx/proxy_temp");
    assert_eq!(n.http_fastcgi_temp_path(), "/opt/nginx/fastcgi_temp");
    assert_eq!(n.http_uwsgi_temp_path(), "/opt/nginx/uwsgi_temp");
    assert_eq!(n.http_scgi_temp_path(), "/opt/nginx/scgi_temp");
}

#[test]
fn builder_keeps_absolute_conf_path() {
    let n = NginxBuilder::new("/opt/nginx/").conf_path("/etc/nginx/test.conf".to_string()).build();
    assert_eq!(n.conf_path(), "/etc/nginx/test.conf");
    assert_eq!(n.pid_path(), "/opt/nginx/logs/nginx.pid");
}

#[test]
fn join_paths() {
    assert_eq!(join_path("/a", "b"), "/a/b");
    assert_eq!(join_path("/a/", "b"), "/a/b");
    assert_eq!(join_path("", "b"), "b");
    assert_eq!(join_path("/a", "/b"), "/b");
    assert_eq!(join_path("/a", ""), "/a/");
}

#[test]
fn install_bin_path() {
    let n = Install::new("/srv/nginx".to_string());
    assert_eq!(n.bin_path(), "/srv/nginx/sbin/nginx");
}

#[test]
fn unit_configuration_always_merges() {
    let mut c = ();
    assert_eq!(c.merge(&()), Ok(()));
    assert_eq!(MergeConfigError::NoValue.message(), "no value");
}

#[test]
fn test1() {
    assert!(true, "test successfull");
}
