use cosmic_share_browser::config::Config;
use cosmic_share_browser::daemon::{avahi_publish_command, plan_reload, read_only_refusal, Reload};

fn config(enabled: bool, dir: &str, read_only: bool) -> Config {
    Config {
        enabled,
        shared_dir: dir.to_string(),
        service_name: "COSMIC-Share".to_string(),
        read_only,
    }
}

#[test]
fn read_only_share_refuses_writes() {
    for m in ["PUT", "DELETE", "MKCOL", "MOVE", "COPY", "PROPPATCH", "LOCK", "UNLOCK"] {
        let r = read_only_refusal(true, m).expect("refused");
        assert_eq!(r.status, 405);
        assert_eq!(r.body, "Read-only share");
        assert!(read_only_refusal(false, m).is_none());
    }
    for m in ["GET", "HEAD", "OPTIONS", "PROPFIND", "put", "POST"] {
        assert!(read_only_refusal(true, m).is_none());
    }
}

#[test]
fn advertisement() {
    assert_eq!(
        avahi_publish_command("COSMIC-Share", 40000),
        vec!["avahi-publish-service", "COSMIC-Share", "_webdav._tcp", "40000", "u=/", "path=/"]
    );
}

#[test]
fn reload_decisions() {
    let on = config(true, "/a", true);
    assert_eq!(plan_reload(&None, &on, false), Reload::Restart);
    assert_eq!(plan_reload(&Some(config(true, "/a", true)), &on, true), Reload::Keep);
    assert_eq!(plan_reload(&Some(config(true, "/a", true)), &on, false), Reload::Restart);
    assert_eq!(plan_reload(&Some(config(true, "/b", true)), &on, true), Reload::Restart);
    assert_eq!(plan_reload(&Some(config(true, "/a", false)), &on, true), Reload::Restart);
    assert_eq!(plan_reload(&Some(config(false, "/a", true)), &on, true), Reload::Keep);
    let off = config(false, "/a", true);
    assert_eq!(plan_reload(&None, &off, false), Reload::Record);
    assert_eq!(plan_reload(&Some(on.clone()), &off, true), Reload::StopAndRecord);
    assert_eq!(plan_reload(&Some(on), &off, false), Reload::Record);
}
