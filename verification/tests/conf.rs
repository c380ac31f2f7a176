use eggspire::conf::{Auth, Conf, Token, DEFAULT_SPAN, PAGE_SIZE};
use eggspire::page::{SweepConfig, SweepKind};

fn auth() -> Auth {
    Auth {
        access_key: "ak".to_string(),
        access_sec: "as".to_string(),
        con_key: "ck".to_string(),
        con_sec: "cs".to_string(),
    }
}

#[test]
fn defaults_are_a_dry_run_of_52_weeks() {
    let conf = Conf::new();
    assert_eq!(conf.span, 31_449_600);
    assert_eq!(conf.span, DEFAULT_SPAN);
    assert_eq!(conf.span, 52 * 604_800);
    assert!(conf.dryrun);
    assert!(!conf.quiet);
    assert!(!conf.likes);
    assert_eq!(conf.file, "eggspire.toml");
    assert_eq!(conf.token.consumer.key, "");
    assert_eq!(conf.token.consumer.secret, "");
    assert_eq!(conf.token.access.key, "");
    assert_eq!(conf.token.access.secret, "");
}

#[test]
fn arguments_fill_the_configuration() {
    let conf = Conf::from_args("2", "auth.toml", false, true, true).unwrap();
    assert_eq!(conf.span, 1_209_600);
    assert!(!conf.dryrun);
    assert!(conf.quiet);
    assert!(conf.likes);
    assert_eq!(conf.file, "auth.toml");
    assert_eq!(conf.token.consumer.key, "");
    assert_eq!(conf.token.access.secret, "");
}

#[test]
fn default_arguments_give_52_weeks() {
    let conf = Conf::from_args("52", "eggspire.toml", false, false, false).unwrap();
    assert_eq!(conf.span, Conf::new().span);
    assert!(!conf.dryrun);
}

#[test]
fn a_refused_span_gives_no_configuration() {
    for weeks in ["0", "52000", "-1", "", "many"] {
        let refused = Conf::from_args(weeks, "auth.toml", true, false, false);
        assert_eq!(refused.err(), Some("Has to be a natural number (1,2,..)".to_string()));
    }
}

#[test]
fn token_takes_the_pairs_of_the_file() {
    let token = Token::from_auth(auth());
    assert_eq!(token.consumer.key, "ak");
    assert_eq!(token.consumer.secret, "as");
    assert_eq!(token.access.key, "ck");
    assert_eq!(token.access.secret, "cs");
}

#[test]
fn set_token_changes_the_token_only() {
    let mut conf = Conf::from_args("3", "auth.toml", false, true, true).unwrap();
    conf.set_token(auth());
    assert_eq!(conf.token.consumer.key, "ak");
    assert_eq!(conf.token.consumer.secret, "as");
    assert_eq!(conf.token.access.key, "ck");
    assert_eq!(conf.token.access.secret, "cs");
    assert_eq!(conf.span, 3 * 604_800);
    assert!(!conf.dryrun);
    assert!(conf.quiet);
    assert!(conf.likes);
    assert_eq!(conf.file, "auth.toml");
}

#[test]
fn likes_are_swept_only_when_asked_for() {
    let mut conf = Conf::new();
    assert_eq!(conf.sweeps(), vec![SweepKind::Timeline]);
    conf.likes = true;
    assert_eq!(conf.sweeps(), vec![SweepKind::Timeline, SweepKind::Likes]);
}

#[test]
fn sweep_parameters_come_from_the_configuration() {
    let conf = Conf::from_args("1", "auth.toml", false, false, true).unwrap();
    assert_eq!(PAGE_SIZE, 100);
    assert_eq!(
        conf.sweep(SweepKind::Likes, 77),
        SweepConfig {
            kind: SweepKind::Likes,
            owner_id: 77,
            page_size: 100,
            span_seconds: 604_800,
            dry_run: false,
        }
    );
    assert_eq!(
        Conf::new().sweep(SweepKind::Timeline, 5),
        SweepConfig {
            kind: SweepKind::Timeline,
            owner_id: 5,
            page_size: 100,
            span_seconds: 31_449_600,
            dry_run: true,
        }
    );
}
