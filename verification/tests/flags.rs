use smolvm::error::Error;
use smolvm::flags::{
    is_likely_image_ref, parse_cli_secret_refs, resolve_egress_flags, ResolvedHost,
};

#[test]
fn is_likely_image_ref_classifies_correctly() {
    assert!(is_likely_image_ref("ubuntu:22.04"));
    assert!(is_likely_image_ref("ghcr.io/org/image"));
    assert!(is_likely_image_ref("library/alpine"));
    assert!(!is_likely_image_ref("alpine"));
    assert!(!is_likely_image_ref("bash"));
    assert!(!is_likely_image_ref("/bin/sh"));
    assert!(!is_likely_image_ref("./script.sh"));
}

#[test]
fn parse_cli_secret_refs_builds_env_and_file_refs() {
    let refs = parse_cli_secret_refs(
        &vec!["GUEST_TOKEN=HOST_TOKEN".to_string()],
        &vec!["GUEST_KEY=/abs/key".to_string()],
    )
    .unwrap();
    assert_eq!(
        refs.get("GUEST_TOKEN").unwrap().from_env.as_deref(),
        Some("HOST_TOKEN")
    );
    assert_eq!(
        refs.get("GUEST_KEY").unwrap().from_file,
        Some("/abs/key".to_string())
    );
}

#[test]
fn parse_cli_secret_refs_rejects_bad_specs() {
    assert!(parse_cli_secret_refs(&vec!["NO_EQUALS".to_string()], &vec![]).is_err());
    assert!(parse_cli_secret_refs(&vec!["=HOST".to_string()], &vec![]).is_err());
    assert!(parse_cli_secret_refs(&vec![], &vec!["K=relative/path".to_string()]).is_err());
    assert!(
        parse_cli_secret_refs(&vec!["DUP=HOST".to_string()], &vec!["DUP=/abs/path".to_string()])
            .is_err()
    );
}

#[test]
fn repeated_secret_is_named_in_the_error() {
    let refused = parse_cli_secret_refs(
        &vec!["DUP=A".to_string(), "DUP=B".to_string()],
        &vec![],
    );
    assert_eq!(
        refused.unwrap_err(),
        Error::Config {
            operation: "--secret-env".to_string(),
            reason: "secret 'DUP' specified more than once".to_string(),
        }
    );
    let split = parse_cli_secret_refs(&vec!["K=a=b".to_string()], &vec![]).unwrap();
    assert_eq!(split.get("K").unwrap().from_env.as_deref(), Some("a=b"));
}

fn host(name: &str, cidrs: Result<Vec<&str>, &str>) -> ResolvedHost {
    ResolvedHost {
        host: name.to_string(),
        cidrs: match cidrs {
            Ok(cidrs) => Ok(cidrs.into_iter().map(str::to_string).collect()),
            Err(reason) => Err(reason.to_string()),
        },
    }
}

#[test]
fn egress_flags_turn_the_network_on() {
    let none = resolve_egress_flags(&vec![], &vec![], false, false).unwrap();
    assert!(!none.net);
    assert!(none.cidrs.is_empty());
    assert_eq!(none.dns_filter_hosts, None);
    let local = resolve_egress_flags(&vec![], &vec![], true, false).unwrap();
    assert!(local.net);
    assert_eq!(local.cidrs, vec!["127.0.0.0/8", "::1/128"]);
    let named = resolve_egress_flags(
        &vec!["10.0.0.0/8".to_string()],
        &vec![host("a.example", Ok(vec!["1.2.3.4/32"])), host("b.example", Ok(vec![]))],
        false,
        false,
    )
    .unwrap();
    assert!(named.net);
    assert_eq!(named.cidrs, vec!["10.0.0.0/8", "1.2.3.4/32"]);
    assert_eq!(
        named.dns_filter_hosts,
        Some(vec!["a.example".to_string(), "b.example".to_string()])
    );
}

#[test]
fn first_host_that_does_not_resolve_is_reported() {
    let refused = resolve_egress_flags(
        &vec![],
        &vec![host("a", Ok(vec!["1.1.1.1/32"])), host("b", Err("no b")), host("c", Err("no c"))],
        false,
        true,
    );
    assert_eq!(
        refused.unwrap_err(),
        Error::Config { operation: "--allow-host".to_string(), reason: "no b".to_string() }
    );
}
