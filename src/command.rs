//! The command grammar of payment messages: `mirror <url> [--force]`,
//! `resolve <url>`, `ping`, and anything else.
use vstd::prelude::*;
use crate::bindings::{parse_url, parsed_url_of};
use crate::text::{
    concat3, decimal, parse_u64, parse_u64_spec, split_whitespace, str_eq, u64_to_decimal, views,
    words,
};
use crate::types::QuestionSource;

verus! {

/// A URL as the grammar sees it: its host and its path segments.
pub type UrlView = Option<(Option<Seq<char>>, Option<Seq<Seq<char>>>)>;

/// A question to mirror, as named by a source URL.
#[derive(Debug)]
pub struct MirrorTarget {
    pub source: QuestionSource,
    pub source_id: String,
}

/// Where a question URL points: the source and the normalized id, or the
/// reason it is refused.
pub open spec fn mirror_target_spec(u: UrlView) -> Result<(QuestionSource, Seq<char>), Seq<char>> {
    match u {
        None => Err("Invalid URL"@),
        Some((None, _)) => Err("Invalid URL"@),
        Some((Some(host), segs)) => if host == "www.metaculus.com"@ {
            match segs {
                None => Err("Failed to parse Metaculus question url"@),
                Some(sg) => if sg.len() == 0 || sg[0] != "questions"@ {
                    Err("Failed to parse Metaculus question url"@)
                } else if sg.len() < 2 {
                    Err("Missing Metaculus question id"@)
                } else {
                    match parse_u64_spec(sg[1]) {
                        None => Err("Metaculus question id must be a positive integer"@),
                        Some(n) => Ok((QuestionSource::Metaculus, decimal(n as nat))),
                    }
                },
            }
        } else if host == "kalshi.com"@ {
            Err("Managram mirroring for Kalshi has not been implemented yet."@)
        } else {
            Err("Unrecognized host `"@ + host + "`"@)
        },
    }
}

impl MirrorTarget {
    pub open spec fn view(&self) -> (QuestionSource, Seq<char>) {
        (self.source, self.source_id@)
    }

    /// Reads the question that a source URL names.
    pub fn parse_arg(s: &str) -> (r: Result<MirrorTarget, String>)
        ensures
            match r {
                Ok(t) => mirror_target_spec(parsed_url_of(s@)) == Ok::<_, Seq<char>>(t.view()),
                Err(e) => mirror_target_spec(parsed_url_of(s@)) == Err::<(QuestionSource, Seq<char>), _>(e@),
            },
    {
        let parts = match parse_url(s) {
            Some(p) => p,
            None => return Err(String::from_str("Invalid URL")),
        };
        let host = match &parts.host {
            Some(h) => h,
            None => return Err(String::from_str("Invalid URL")),
        };
        if str_eq(host.as_str(), "www.metaculus.com") {
            let segs = match &parts.segments {
                Some(sg) => sg,
                None => return Err(String::from_str("Failed to parse Metaculus question url")),
            };
            assert(views(segs@)[0] == segs@[0]@);
            if !str_eq(segs[0].as_str(), "questions") {
                return Err(String::from_str("Failed to parse Metaculus question url"));
            }
            if segs.len() < 2 {
                return Err(String::from_str("Missing Metaculus question id"));
            }
            assert(views(segs@)[1] == segs@[1]@);
            match parse_u64(segs[1].as_str()) {
                None => Err(String::from_str("Metaculus question id must be a positive integer")),
                Some(n) => Ok(MirrorTarget { source: QuestionSource::Metaculus, source_id: u64_to_decimal(n) }),
            }
        } else if str_eq(host.as_str(), "kalshi.com") {
            Err(String::from_str("Managram mirroring for Kalshi has not been implemented yet."))
        } else {
            Err(concat3("Unrecognized host `", host.as_str(), "`"))
        }
    }
}

/// A destination market, by id or by URL slug.
#[derive(Debug)]
pub enum MarketIdentifier {
    Id(String),
    Slug(String),
}

/// Characters a market slug may hold.
pub open spec fn is_slug_char(c: char) -> bool {
    ('a' <= c && c <= 'z') || ('0' <= c && c <= '9') || c == '-'
}

pub open spec fn is_valid_slug(s: Seq<char>) -> bool {
    s.len() <= 100 && forall|k: int| 0 <= k < s.len() ==> is_slug_char(#[trigger] s[k])
}

/// The slug that a destination market URL names, or the reason it is refused.
pub open spec fn market_slug_spec(u: UrlView) -> Result<Seq<char>, Seq<char>> {
    match u {
        None => Err("Invalid url"@),
        Some((host, segs)) => if host != Some("manifold.markets"@) && host != Some(
            "dev.manifold.markets"@,
        ) {
            Err("invalid Manifold host"@)
        } else {
            match segs {
                None => Err("Failed to parse Manifold market url"@),
                Some(sg) => if sg.len() == 0 {
                    Err("Failed to parse Manifold market url"@)
                } else if sg.len() < 2 {
                    Err("Missing market slug"@)
                } else if !is_valid_slug(sg[1]) {
                    Err("Invalid market slug"@)
                } else {
                    Ok(sg[1])
                },
            }
        },
    }
}

fn is_valid_slug_exec(s: &str) -> (r: bool)
    ensures
        r == is_valid_slug(s@),
{
    let n = s.unicode_len();
    if n > 100 {
        return false;
    }
    let mut i: usize = 0;
    while i < n
        invariant
            n == s@.len(),
            i <= n,
            forall|k: int| 0 <= k < i ==> is_slug_char(#[trigger] s@[k]),
        decreases n - i,
    {
        let c = s.get_char(i);
        if !(('a' <= c && c <= 'z') || ('0' <= c && c <= '9') || c == '-') {
            return false;
        }
        i = i + 1;
    }
    true
}

impl MarketIdentifier {
    /// Reads the market slug from a destination market URL.
    pub fn parse_arg(s: &str) -> (r: Result<MarketIdentifier, String>)
        ensures
            match r {
                Ok(MarketIdentifier::Slug(slug)) => market_slug_spec(parsed_url_of(s@)) == Ok::<_, Seq<char>>(slug@),
                Ok(MarketIdentifier::Id(_)) => false,
                Err(e) => market_slug_spec(parsed_url_of(s@)) == Err::<Seq<char>, _>(e@),
            },
    {
        let parts = match parse_url(s) {
            Some(p) => p,
            None => return Err(String::from_str("Invalid url")),
        };
        let host_ok = match &parts.host {
            Some(h) => str_eq(h.as_str(), "manifold.markets") || str_eq(h.as_str(), "dev.manifold.markets"),
            None => false,
        };
        if !host_ok {
            return Err(String::from_str("invalid Manifold host"));
        }
        let segs = match &parts.segments {
            Some(sg) => sg,
            None => return Err(String::from_str("Failed to parse Manifold market url")),
        };
        if segs.len() < 2 {
            return Err(String::from_str("Missing market slug"));
        }
        assert(views(segs@)[1] == segs@[1]@);
        if !is_valid_slug_exec(segs[1].as_str()) {
            return Err(String::from_str("Invalid market slug"));
        }
        Ok(MarketIdentifier::Slug(segs[1].clone()))
    }
}

#[derive(Debug)]
pub struct MirrorArgs {
    pub target: MirrorTarget,
    pub force: bool,
}

#[derive(Debug)]
pub struct ResolveArgs {
    pub target: MarketIdentifier,
}

/// A command read from a payment message.
#[derive(Debug)]
pub enum ManagramCommands {
    /// Request a mirror for a specific question
    Mirror(MirrorArgs),
    /// Request resolution for a mirror of a resolved source
    Resolve(ResolveArgs),
    /// Responds "Pong!", for testing purposes
    Ping,
    /// Anything else: the message's words
    Unknown(Vec<String>),
}

/// What a command says, over plain values.
pub enum CommandView {
    Mirror { source: QuestionSource, source_id: Seq<char>, force: bool },
    Resolve { slug: Seq<char> },
    ResolveId { id: Seq<char> },
    Ping,
    Unknown { words: Seq<Seq<char>> },
}

impl ManagramCommands {
    pub open spec fn view(&self) -> CommandView {
        match self {
            ManagramCommands::Mirror(a) => CommandView::Mirror {
                source: a.target.source,
                source_id: a.target.source_id@,
                force: a.force,
            },
            ManagramCommands::Resolve(a) => match a.target {
                MarketIdentifier::Slug(s) => CommandView::Resolve { slug: s@ },
                MarketIdentifier::Id(i) => CommandView::ResolveId { id: i@ },
            },
            ManagramCommands::Ping => CommandView::Ping,
            ManagramCommands::Unknown(w) => CommandView::Unknown { words: views(w@) },
        }
    }
}

pub open spec fn force_flag() -> Seq<char> {
    "--force"@
}

/// The arguments of `w` that are not the `--force` flag.
pub open spec fn positional(w: Seq<Seq<char>>) -> Seq<Seq<char>>
    decreases w.len(),
{
    if w.len() == 0 {
        w
    } else if w.last() == force_flag() {
        positional(w.drop_last())
    } else {
        positional(w.drop_last()).push(w.last())
    }
}

pub open spec fn missing_target() -> Seq<char> {
    "The following required argument was not provided: <TARGET>"@
}

pub open spec fn unexpected(a: Seq<char>) -> Seq<char> {
    "unexpected argument '"@ + a + "' found"@
}

pub open spec fn invalid_target(a: Seq<char>, why: Seq<char>) -> Seq<char> {
    "invalid value '"@ + a + "' for '<TARGET>': "@ + why
}

/// The command that a message's words make, or the parse error to report.
pub open spec fn command_spec(w: Seq<Seq<char>>) -> Result<CommandView, Seq<char>> {
    if w.len() > 0 && w[0] == "mirror"@ {
        let rest = w.subrange(1, w.len() as int);
        let pos = positional(rest);
        if pos.len() == 0 {
            Err(missing_target())
        } else if pos.len() > 1 {
            Err(unexpected(pos[1]))
        } else {
            match mirror_target_spec(parsed_url_of(pos[0])) {
                Err(why) => Err(invalid_target(pos[0], why)),
                Ok((source, id)) => Ok(
                    CommandView::Mirror { source, source_id: id, force: rest.contains(force_flag()) },
                ),
            }
        }
    } else if w.len() > 0 && w[0] == "resolve"@ {
        if w.len() < 2 {
            Err(missing_target())
        } else if w.len() > 2 {
            Err(unexpected(w[2]))
        } else {
            match market_slug_spec(parsed_url_of(w[1])) {
                Err(why) => Err(invalid_target(w[1], why)),
                Ok(slug) => Ok(CommandView::Resolve { slug }),
            }
        }
    } else if w.len() > 0 && w[0] == "ping"@ {
        if w.len() > 1 {
            Err(unexpected(w[1]))
        } else {
            Ok(CommandView::Ping)
        }
    } else {
        Ok(CommandView::Unknown { words: w })
    }
}

fn unexpected_exec(a: &str) -> (r: String)
    ensures
        r@ == unexpected(a@),
{
    concat3("unexpected argument '", a, "' found")
}

fn invalid_target_exec(a: &str, why: &str) -> (r: String)
    ensures
        r@ == invalid_target(a@, why@),
{
    concat3("invalid value '", a, "' for '<TARGET>': ").concat(why)
}

/// Splits the arguments after `mirror` into the positional ones and whether
/// `--force` is among them.
fn split_mirror_args(w: &Vec<String>) -> (r: (Vec<String>, bool))
    requires
        w@.len() >= 1,
    ensures
        views(r.0@) == positional(views(w@).subrange(1, w@.len() as int)),
        r.1 == views(w@).subrange(1, w@.len() as int).contains(force_flag()),
{
    let ghost rest = views(w@).subrange(1, w@.len() as int);
    let mut pos: Vec<String> = Vec::new();
    let mut force = false;
    let mut i: usize = 1;
    while i < w.len()
        invariant
            1 <= i <= w@.len(),
            rest == views(w@).subrange(1, w@.len() as int),
            views(pos@) == positional(rest.subrange(0, i - 1)),
            force == rest.subrange(0, i - 1).contains(force_flag()),
        decreases w@.len() - i,
    {
        let ghost pre = rest.subrange(0, i - 1);
        let ghost next = rest.subrange(0, i as int);
        assert(next.drop_last() =~= pre);
        assert(next.last() == w@[i as int]@);
        proof {
            reveal_strlit("--force");
        }
        if str_eq(w[i].as_str(), "--force") {
            assert(next.contains(force_flag())) by {
                assert(next[next.len() - 1] == force_flag());
            }
            force = true;
        } else {
            assert(next.contains(force_flag()) == pre.contains(force_flag())) by {
                if next.contains(force_flag()) {
                    let k = choose|k: int| 0 <= k < next.len() && next[k] == force_flag();
                    assert(k < pre.len());
                    assert(pre[k] == force_flag());
                }
                if pre.contains(force_flag()) {
                    let k = choose|k: int| 0 <= k < pre.len() && pre[k] == force_flag();
                    assert(next[k] == force_flag());
                }
            }
            let t = w[i].clone();
            assert(views(pos@.push(t)) =~= views(pos@).push(t@));
            pos.push(t);
        }
        i = i + 1;
    }
    assert(rest.subrange(0, i - 1) =~= rest);
    (pos, force)
}

/// Reads the command in a payment message: whitespace-separated words, no
/// quoting.
pub fn parse_managram_command(message: &str) -> (r: Result<ManagramCommands, String>)
    ensures
        match r {
            Ok(c) => command_spec(words(message@)) == Ok::<_, Seq<char>>(c.view()),
            Err(e) => command_spec(words(message@)) == Err::<CommandView, _>(e@),
        },
{
    let w = split_whitespace(message);
    let ghost wv = views(w@);
    proof {
        reveal_strlit("mirror");
        reveal_strlit("resolve");
        reveal_strlit("ping");
    }
    if w.len() > 0 {
        assert(wv[0] == w@[0]@);
    }
    if w.len() > 0 && str_eq(w[0].as_str(), "mirror") {
        let (pos, force) = split_mirror_args(&w);
        if pos.len() == 0 {
            return Err(String::from_str(
                "The following required argument was not provided: <TARGET>",
            ));
        }
        assert(views(pos@)[0] == pos@[0]@);
        if pos.len() > 1 {
            assert(views(pos@)[1] == pos@[1]@);
            return Err(unexpected_exec(pos[1].as_str()));
        }
        match MirrorTarget::parse_arg(pos[0].as_str()) {
            Err(why) => Err(invalid_target_exec(pos[0].as_str(), why.as_str())),
            Ok(target) => Ok(ManagramCommands::Mirror(MirrorArgs { target, force })),
        }
    } else if w.len() > 0 && str_eq(w[0].as_str(), "resolve") {
        if w.len() < 2 {
            return Err(String::from_str(
                "The following required argument was not provided: <TARGET>",
            ));
        }
        if w.len() > 2 {
            assert(wv[2] == w@[2]@);
            return Err(unexpected_exec(w[2].as_str()));
        }
        assert(wv[1] == w@[1]@);
        match MarketIdentifier::parse_arg(w[1].as_str()) {
            Err(why) => Err(invalid_target_exec(w[1].as_str(), why.as_str())),
            Ok(target) => Ok(ManagramCommands::Resolve(ResolveArgs { target })),
        }
    } else if w.len() > 0 && str_eq(w[0].as_str(), "ping") {
        if w.len() > 1 {
            assert(wv[1] == w@[1]@);
            return Err(unexpected_exec(w[1].as_str()));
        }
        Ok(ManagramCommands::Ping)
    } else {
        Ok(ManagramCommands::Unknown(w))
    }
}

} // verus!
