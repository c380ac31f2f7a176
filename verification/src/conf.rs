//! The configuration of a run and the credentials it signs requests with.

use crate::args::{refusal, week_count, SECONDS_IN_WEEK};
use crate::args::span_from_weeks;
use crate::page::{SweepConfig, SweepKind};
use vstd::prelude::*;

verus! {

/// Span used when none is given: 52 weeks, in seconds.
pub const DEFAULT_SPAN: i64 = 31449600;

/// Number of items asked for in one request.
pub const PAGE_SIZE: u32 = 100;

/// A key and the secret that goes with it.
#[derive(Clone, Debug)]
pub struct KeyPair {
    pub key: String,
    pub secret: String,
}

/// The two key pairs that sign a request.
#[derive(Clone, Debug)]
pub struct Token {
    pub consumer: KeyPair,
    pub access: KeyPair,
}

/// Credentials as the credentials file lists them.
#[derive(Clone, Debug)]
pub struct Auth {
    pub access_key: String,
    pub access_sec: String,
    pub con_key: String,
    pub con_sec: String,
}

/// What the user asked for.
#[derive(Clone, Debug)]
pub struct Conf {
    /// Age in seconds beyond which an item has expired.
    pub span: i64,
    /// Count only; delete and unlike nothing.
    pub dryrun: bool,
    /// Print no progress text.
    pub quiet: bool,
    /// Sweep the liked items as well as the timeline.
    pub likes: bool,
    /// Path of the credentials file.
    pub file: String,
    /// The credentials, empty until they are read.
    pub token: Token,
}

/// Path of the credentials file when none is given.
pub open spec fn default_file() -> Seq<char> {
    "eggspire.toml"@
}

/// The token that `auth` gives: the consumer pair is made of the access key
/// and secret of the file, the access pair of its consumer key and secret.
pub open spec fn token_matches(token: Token, auth: Auth) -> bool {
    &&& token.consumer.key@ == auth.access_key@
    &&& token.consumer.secret@ == auth.access_sec@
    &&& token.access.key@ == auth.con_key@
    &&& token.access.secret@ == auth.con_sec@
}

/// The sweeps that a run makes, in order: the timeline always, the likes
/// where asked for.
pub open spec fn planned(likes: bool) -> Seq<SweepKind> {
    if likes {
        seq![SweepKind::Timeline, SweepKind::Likes]
    } else {
        seq![SweepKind::Timeline]
    }
}

impl Token {
    /// Builds the token that signs requests from the credentials of the file.
    pub fn from_auth(auth: Auth) -> (token: Token)
        ensures
            token_matches(token, auth),
    {
        Token {
            consumer: KeyPair { key: auth.access_key, secret: auth.access_sec },
            access: KeyPair { key: auth.con_key, secret: auth.con_sec },
        }
    }
}

impl Conf {
    /// The configuration of a run without arguments: a dry run over the
    /// timeline alone with a span of 52 weeks, credentials in
    /// `eggspire.toml`, and a token of empty keys.
    pub fn new() -> (conf: Conf)
        ensures
            conf.span == DEFAULT_SPAN,
            conf.dryrun,
            !conf.quiet,
            !conf.likes,
            conf.file@ == default_file(),
            conf.token.consumer.key@.len() == 0,
            conf.token.consumer.secret@.len() == 0,
            conf.token.access.key@.len() == 0,
            conf.token.access.secret@.len() == 0,
    {
        Conf {
            span: DEFAULT_SPAN,
            dryrun: true,
            quiet: false,
            likes: false,
            file: "eggspire.toml".to_owned(),
            token: Token {
                consumer: KeyPair { key: String::new(), secret: String::new() },
                access: KeyPair { key: String::new(), secret: String::new() },
            },
        }
    }

    /// The configuration that the arguments ask for: the span is `weeks`
    /// weeks in seconds, the rest is taken as given, and the token is empty.
    ///
    /// Fails with the validator's message where `weeks` is not a number of
    /// weeks from 1 to 51999.
    pub fn from_args(weeks: &str, file: &str, dryrun: bool, quiet: bool, likes: bool) -> (conf:
        Result<Conf, String>)
        ensures
            match conf {
                Ok(conf) => {
                    &&& week_count(weeks@) matches Some(number)
                    &&& conf.span == number * SECONDS_IN_WEEK
                    &&& conf.dryrun == dryrun
                    &&& conf.quiet == quiet
                    &&& conf.likes == likes
                    &&& conf.file@ == file@
                    &&& conf.token.consumer.key@.len() == 0
                    &&& conf.token.consumer.secret@.len() == 0
                    &&& conf.token.access.key@.len() == 0
                    &&& conf.token.access.secret@.len() == 0
                },
                Err(message) => week_count(weeks@) is None && message@ == refusal(),
            },
    {
        match span_from_weeks(weeks) {
            Ok(span) => {
                let mut conf: Conf = Conf::new();
                conf.span = span;
                conf.file = file.to_owned();
                conf.dryrun = dryrun;
                conf.quiet = quiet;
                conf.likes = likes;
                Ok(conf)
            },
            Err(message) => Err(message),
        }
    }

    /// Installs the credentials read from the credentials file.
    pub fn set_token(&mut self, auth: Auth)
        ensures
            token_matches(final(self).token, auth),
            final(self).span == old(self).span,
            final(self).dryrun == old(self).dryrun,
            final(self).quiet == old(self).quiet,
            final(self).likes == old(self).likes,
            final(self).file == old(self).file,
    {
        self.token = Token::from_auth(auth);
    }

    /// The sweeps to make, in order: the timeline, then the likes if asked
    /// for.
    pub fn sweeps(&self) -> (kinds: Vec<SweepKind>)
        ensures
            kinds@ == planned(self.likes),
    {
        let mut kinds: Vec<SweepKind> = Vec::new();
        kinds.push(SweepKind::Timeline);
        if self.likes {
            kinds.push(SweepKind::Likes);
        }
        kinds
    }

    /// The parameters of one sweep of this run on behalf of `owner_id`.
    pub fn sweep(&self, kind: SweepKind, owner_id: u64) -> (config: SweepConfig)
        ensures
            config == (SweepConfig {
                kind,
                owner_id,
                page_size: PAGE_SIZE,
                span_seconds: self.span,
                dry_run: self.dryrun,
            }),
    {
        SweepConfig {
            kind,
            owner_id,
            page_size: PAGE_SIZE,
            span_seconds: self.span,
            dry_run: self.dryrun,
        }
    }
}

} // verus!
