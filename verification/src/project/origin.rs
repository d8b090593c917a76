//! Origins: an optional scheme, a hostname that may hold wildcard labels, and
//! an optional port.

use vstd::prelude::*;
use vstd::string::*;
use crate::text::{
    decimal, lemma_split_nonempty, parse_port, port_of, port_text, split, split_on, str_eq, views,
};

verus! {

/// What the `regex` crate captures when the regular expression `pattern`
/// is matched against `haystack`: `None` if the pattern does not compile or
/// nothing matches; otherwise, for the leftmost match, the text of each
/// capture group in the order of their opening brackets, group 0 being the
/// whole match, with `None` for a group that took no part in the match.
pub uninterp spec fn regex_captures(pattern: Seq<char>, haystack: Seq<char>) -> Option<
    Seq<Option<Seq<char>>>,
>;

/// The views of a list of optional strings.
pub open spec fn group_views(groups: Seq<Option<String>>) -> Seq<Option<Seq<char>>> {
    Seq::new(
        groups.len(),
        |i: int|
            match groups[i] {
                Some(text) => Some(text@),
                None => None,
            },
    )
}

/// Compiles `pattern` with `regex::Regex::new`, searches `haystack` with
/// `Regex::captures` and copies out the text of every capture group. The
/// contract only names the outcome.
#[verifier::external_body]
fn captures(pattern: &str, haystack: &str) -> (groups: Option<Vec<Option<String>>>)
    ensures
        match groups {
            Some(found) => regex_captures(pattern@, haystack@) == Some(group_views(found@)),
            None => regex_captures(pattern@, haystack@) is None,
        },
{
    let re = regex::Regex::new(pattern).ok()?;
    let caps = re.captures(haystack)?;
    Some(caps.iter().map(|group| group.map(|m| m.as_str().to_string())).collect())
}

#[derive(Debug, Clone, Copy, PartialEq, Eq, Structural)]
pub enum OriginParseError {
    InvalidFormat,
    InvalidPortNumber,
}

impl OriginParseError {
    pub open spec fn text(self) -> Seq<char> {
        match self {
            OriginParseError::InvalidFormat => "invalid origin format"@,
            OriginParseError::InvalidPortNumber => "invalid port number"@,
        }
    }

    pub fn to_string(&self) -> (s: String)
        ensures
            s@ == self.text(),
    {
        match self {
            OriginParseError::InvalidFormat => String::from_str("invalid origin format"),
            OriginParseError::InvalidPortNumber => String::from_str("invalid port number"),
        }
    }
}

#[derive(Debug, Clone, PartialEq, Eq)]
pub struct Origin {
    pub scheme: Option<String>,
    pub hostname: String,
    pub hostname_parts: Vec<String>,
    pub port: Option<u16>,
}

/// Mathematical value of an [`Origin`].
pub ghost struct OriginView {
    pub scheme: Option<Seq<char>>,
    pub hostname: Seq<char>,
    pub hostname_parts: Seq<Seq<char>>,
    pub port: Option<u16>,
}

impl View for Origin {
    type V = OriginView;

    open spec fn view(&self) -> OriginView {
        OriginView {
            scheme: match self.scheme {
                Some(scheme) => Some(scheme@),
                None => None,
            },
            hostname: self.hostname@,
            hostname_parts: views(self.hostname_parts@),
            port: self.port,
        }
    }
}

impl OriginView {
    /// The hostname parts are the labels of the hostname.
    pub open spec fn well_formed(self) -> bool {
        self.hostname_parts == split_on(self.hostname, '.')
    }

    /// Whether `other` is an instance of this pattern: the schemes agree where
    /// both are given, the ports are equal, and the hostnames have the same
    /// labels but where the pattern's label is `*`.
    pub open spec fn matches(self, other: OriginView) -> bool {
        &&& self.scheme is Some && other.scheme is Some ==> self.scheme == other.scheme
        &&& self.port == other.port
        &&& self.hostname_parts.len() == other.hostname_parts.len()
        &&& forall|i: int|
            0 <= i < self.hostname_parts.len() ==> #[trigger] self.hostname_parts[i] == "*"@
                || self.hostname_parts[i] == other.hostname_parts[i]
    }

    /// The hostname parts joined by dots.
    pub open spec fn joined(parts: Seq<Seq<char>>) -> Seq<char>
        decreases parts.len(),
    {
        if parts.len() == 0 {
            Seq::empty()
        } else if parts.len() == 1 {
            parts[0]
        } else {
            Self::joined(parts.drop_last()) + "."@ + parts.last()
        }
    }

    /// The origin written out: the scheme and `://` if there is one, the
    /// hostname parts joined by dots, a colon and the port if there is one.
    pub open spec fn text(self) -> Seq<char> {
        (match self.scheme {
            Some(scheme) => scheme + "://"@,
            None => Seq::empty(),
        }) + Self::joined(self.hostname_parts) + (match self.port {
            Some(port) => ":"@ + decimal(port as nat),
            None => Seq::empty(),
        })
    }

    /// The origin that a list of captured groups stands for. The groups are
    /// those of the origin grammar: the scheme is group 2, the hostname
    /// group 3 and the port group 5.
    pub open spec fn from_groups(groups: Seq<Option<Seq<char>>>) -> Result<
        OriginView,
        OriginParseError,
    > {
        if groups.len() != 6 || groups[3] is None {
            Err(OriginParseError::InvalidFormat)
        } else if groups[5] is Some && port_of(groups[5].unwrap()) is None {
            Err(OriginParseError::InvalidPortNumber)
        } else {
            Ok(
                OriginView {
                    scheme: groups[2],
                    hostname: groups[3].unwrap(),
                    hostname_parts: split_on(groups[3].unwrap(), '.'),
                    port: match groups[5] {
                        Some(port) => port_of(port),
                        None => None,
                    },
                },
            )
        }
    }

    /// The origin that `s` writes: whatever the origin grammar captures at
    /// the start of `s`, read by [`OriginView::from_groups`].
    pub open spec fn parse(s: Seq<char>) -> Result<OriginView, OriginParseError> {
        match regex_captures(Origin::grammar(), s) {
            Some(groups) => Self::from_groups(groups),
            None => Err(OriginParseError::InvalidFormat),
        }
    }
}

impl Origin {
    /// Simplified URL grammar. It extracts only the scheme (optional), the
    /// hostname and the port (optional).
    pub open spec fn grammar() -> Seq<char> {
        r"^(([^:]+)://)?([^:/]+)(:([\d]+))?"@
    }

    pub fn matches(&self, other: &Origin) -> (r: bool)
        ensures
            r == self@.matches(other@),
    {
        // if no scheme is specified allow all schemes
        // if a scheme is specified they have to match
        match (&self.scheme, &other.scheme) {
            (Some(a), Some(b)) => {
                if *a != *b {
                    return false;
                }
            },
            _ => {},
        }
        if self.port != other.port {
            return false;
        }
        if self.hostname_parts.len() != other.hostname_parts.len() {
            return false;
        }
        let mut i: usize = 0;
        while i < self.hostname_parts.len()
            invariant
                i <= self.hostname_parts.len(),
                self.hostname_parts.len() == other.hostname_parts.len(),
                forall|j: int|
                    0 <= j < i ==> #[trigger] self@.hostname_parts[j] == "*"@
                        || self@.hostname_parts[j] == other@.hostname_parts[j],
            decreases self.hostname_parts.len() - i,
        {
            let this = self.hostname_parts[i].as_str();
            let that = other.hostname_parts[i].as_str();
            if !str_eq(this, "*") && !str_eq(this, that) {
                assert(!(self@.hostname_parts[i as int] == "*"@ || self@.hostname_parts[i as int]
                    == other@.hostname_parts[i as int]));
                return false;
            }
            i = i + 1;
        }
        true
    }

    pub fn hostname(&self) -> (hostname: &str)
        ensures
            hostname@ == self@.hostname,
    {
        self.hostname.as_str()
    }

    /// Reads the groups captured by the origin grammar.
    pub fn from_captures(groups: Vec<Option<String>>) -> (r: Result<Origin, OriginParseError>)
        ensures
            match OriginView::from_groups(group_views(groups@)) {
                Ok(origin) => r is Ok && r.unwrap()@ == origin,
                Err(e) => r == Err::<Origin, OriginParseError>(e),
            },
            r is Ok ==> r.unwrap()@.well_formed(),
    {
        if groups.len() != 6 {
            return Err(OriginParseError::InvalidFormat);
        }
        let hostname = match &groups[3] {
            Some(text) => text.clone(),
            None => {
                return Err(OriginParseError::InvalidFormat);
            },
        };
        let scheme = match &groups[2] {
            Some(text) => Some(text.clone()),
            None => None,
        };
        let hostname_parts = split(hostname.as_str(), '.');
        let port = match &groups[5] {
            Some(text) => match parse_port(text.as_str()) {
                Some(port) => Some(port),
                None => {
                    return Err(OriginParseError::InvalidPortNumber);
                },
            },
            None => None,
        };
        Ok(Origin { scheme, hostname, hostname_parts, port })
    }

    /// Reads an origin from the start of `s`. Whatever follows the hostname
    /// and the port, such as a path, is ignored.
    pub fn try_from(s: &str) -> (r: Result<Origin, OriginParseError>)
        ensures
            match OriginView::parse(s@) {
                Ok(origin) => r is Ok && r.unwrap()@ == origin,
                Err(e) => r == Err::<Origin, OriginParseError>(e),
            },
            r is Ok ==> r.unwrap()@.well_formed(),
    {
        match captures(r"^(([^:]+)://)?([^:/]+)(:([\d]+))?", s) {
            Some(groups) => Self::from_captures(groups),
            None => Err(OriginParseError::InvalidFormat),
        }
    }

    pub fn to_string(&self) -> (text: String)
        ensures
            text@ == self@.text(),
    {
        let mut text = match &self.scheme {
            Some(scheme) => scheme.clone().concat("://"),
            None => String::new(),
        };
        let ghost head = text@;
        let mut i: usize = 0;
        assert(views(self.hostname_parts@).subrange(0, 0) =~= Seq::<Seq<char>>::empty());
        while i < self.hostname_parts.len()
            invariant
                i <= self.hostname_parts.len(),
                text@ == head + OriginView::joined(
                    views(self.hostname_parts@).subrange(0, i as int),
                ),
            decreases self.hostname_parts.len() - i,
        {
            let ghost before = views(self.hostname_parts@).subrange(0, i as int);
            let ghost next = views(self.hostname_parts@).subrange(0, i + 1);
            proof {
                assert(next.drop_last() =~= before);
                assert(next.last() == self.hostname_parts@[i as int]@);
            }
            if i > 0 {
                text.append(".");
            }
            text.append(self.hostname_parts[i].as_str());
            proof {
                if i == 0 {
                    assert(text@ =~= head + OriginView::joined(next));
                } else {
                    assert(text@ =~= head + OriginView::joined(next));
                }
            }
            i = i + 1;
        }
        assert(views(self.hostname_parts@).subrange(0, i as int) =~= views(self.hostname_parts@));
        match self.port {
            Some(port) => {
                text.append(":");
                text.append(port_text(port).as_str());
            },
            None => {},
        }
        assert(text@ =~= self@.text());
        text
    }
}

/// Joining the labels of a hostname by dots gives the hostname back, so a
/// well-formed origin is written with its hostname as it was read.
pub proof fn lemma_join_split(hostname: Seq<char>)
    ensures
        OriginView::joined(split_on(hostname, '.')) == hostname,
    decreases hostname.len(),
{
    reveal_strlit(".");
    let parts = split_on(hostname, '.');
    if hostname.len() == 0 {
        assert(parts[0] =~= hostname);
    } else {
        let front = hostname.drop_last();
        let before = split_on(front, '.');
        lemma_join_split(front);
        lemma_split_nonempty(front, '.');
        assert("."@ =~= seq!['.']);
        if hostname.last() == '.' {
            assert(parts.drop_last() =~= before);
            assert(OriginView::joined(parts) =~= front + "."@ + Seq::<char>::empty());
            assert(front + "."@ + Seq::<char>::empty() =~= hostname);
        } else {
            let last = before.last().push(hostname.last());
            assert(parts.last() == last);
            if before.len() == 1 {
                assert(OriginView::joined(before) == before[0]);
                assert(parts[0] == before[0].push(hostname.last()));
                assert(front.push(hostname.last()) =~= hostname);
            } else {
                assert(parts.drop_last() =~= before.drop_last());
                assert(OriginView::joined(parts) =~= (OriginView::joined(before.drop_last())
                    + "."@ + before.last()).push(hostname.last()));
                assert(front.push(hostname.last()) =~= hostname);
            }
        }
    }
}

/// The text of a well-formed origin is its scheme, its hostname and its port.
pub proof fn lemma_origin_text(origin: OriginView)
    requires
        origin.well_formed(),
    ensures
        origin.text() == (match origin.scheme {
            Some(scheme) => scheme + "://"@,
            None => Seq::empty(),
        }) + origin.hostname + (match origin.port {
            Some(port) => ":"@ + decimal(port as nat),
            None => Seq::empty(),
        }),
{
    lemma_join_split(origin.hostname);
}

} // verus!
