//! Configuration handling: a `Config` of key/value pairs and the parser for
//! the newline-delimited `key=value` text it is loaded from. Lines that are
//! blank or start with `#` or `-` are comments; the first `=` of a line
//! splits the key from the value; a non-comment line without `=` is reported
//! as a `ConfigError`.
use crate::errors::KapiError;
use crate::strutil::{
    first_idx, lemma_first_idx, lemma_first_idx_is, lemma_first_idx_none, str_eq,
};
use vstd::prelude::*;

verus! {

/// Whitespace inside a configuration line: a blank line holds only these.
pub open spec fn is_config_space(c: char) -> bool {
    c == ' ' || c == '\t' || c == '\r'
}

pub open spec fn line_blank(l: Seq<char>) -> bool {
    forall|i: int| 0 <= i < l.len() ==> is_config_space(l[i])
}

/// A line the parser skips: blank, or a comment starting with `#` or `-`.
pub open spec fn line_ignored(l: Seq<char>) -> bool {
    line_blank(l) || (l.len() > 0 && (l[0] == '#' || l[0] == '-'))
}

/// A carriage return directly before the newline belongs to the line ending,
/// not to the line.
pub open spec fn strip_cr(l: Seq<char>) -> Seq<char> {
    if l.len() > 0 && l.last() == '\r' {
        l.drop_last()
    } else {
        l
    }
}

/// The lines of `s`: split at each newline, with a `\r` before the newline
/// removed; no trailing empty line when `s` ends with a newline.
pub open spec fn split_lines(s: Seq<char>) -> Seq<Seq<char>>
    decreases s.len(),
{
    if s.len() == 0 {
        Seq::empty()
    } else {
        let i = first_idx(s, '\n');
        if i < 0 || i >= s.len() {
            seq![s]
        } else {
            seq![strip_cr(s.take(i))] + split_lines(s.skip(i + 1))
        }
    }
}

/// A line's key/value split at its first `=`, or `None` when it has no `=`.
pub open spec fn split_kv(l: Seq<char>) -> Option<(Seq<char>, Seq<char>)> {
    let i = first_idx(l, '=');
    if i < 0 || i >= l.len() {
        None
    } else {
        Some((l.take(i), l.skip(i + 1)))
    }
}

/// The pairs of a line sequence, in order of appearance; the first
/// non-comment line without `=` is the error.
pub open spec fn parse_lines(lines: Seq<Seq<char>>) -> Result<
    Seq<(Seq<char>, Seq<char>)>,
    Seq<char>,
>
    decreases lines.len(),
{
    if lines.len() == 0 {
        Ok(Seq::empty())
    } else if line_ignored(lines[0]) {
        parse_lines(lines.drop_first())
    } else {
        match split_kv(lines[0]) {
            Option::None => Err(lines[0]),
            Option::Some(kv) => match parse_lines(lines.drop_first()) {
                Ok(ps) => Ok(seq![kv] + ps),
                Err(e) => Err(e),
            },
        }
    }
}

/// What parsing a whole configuration text yields: its pairs in order, or the
/// first unreadable line.
pub open spec fn parse_props_spec(s: Seq<char>) -> Result<
    Seq<(Seq<char>, Seq<char>)>,
    Seq<char>,
> {
    parse_lines(split_lines(s))
}

/// The value for `key` among `m`'s pairs: the last pair wins, as a map built
/// by repeated insertion would have it.
pub open spec fn cfg_lookup(m: Seq<(Seq<char>, Seq<char>)>, key: Seq<char>) -> Option<Seq<char>>
    decreases m.len(),
{
    if m.len() == 0 {
        Option::None
    } else if m.last().0 == key {
        Option::Some(m.last().1)
    } else {
        cfg_lookup(m.drop_last(), key)
    }
}

pub open spec fn cfg_has(m: Seq<(Seq<char>, Seq<char>)>, key: Seq<char>) -> bool {
    cfg_lookup(m, key) is Some
}

pub open spec fn pairs_view(v: Seq<(String, String)>) -> Seq<(Seq<char>, Seq<char>)> {
    Seq::new(v.len(), |i: int| (v[i].0@, v[i].1@))
}

/// Pairs already collected, together with the outcome on the remaining text.
pub open spec fn combine(
    acc: Seq<(Seq<char>, Seq<char>)>,
    rest: Result<Seq<(Seq<char>, Seq<char>)>, Seq<char>>,
) -> Result<Seq<(Seq<char>, Seq<char>)>, Seq<char>> {
    match rest {
        Ok(ps) => Ok(acc + ps),
        Err(e) => Err(e),
    }
}

/// The key/value pairs of one loaded configuration, in the order they were
/// read.
#[derive(Debug)]
pub struct Config {
    pairs: Vec<(String, String)>,
}

impl View for Config {
    type V = Seq<(Seq<char>, Seq<char>)>;

    closed spec fn view(&self) -> Seq<(Seq<char>, Seq<char>)> {
        pairs_view(self.pairs@)
    }
}

impl Config {
    /// A configuration with no pairs.
    pub fn new() -> (c: Config)
        ensures
            c@ =~= Seq::<(Seq<char>, Seq<char>)>::empty(),
    {
        Config { pairs: Vec::new() }
    }

    /// Append one pair; for `lookup` it shadows any earlier pair of the same
    /// key.
    pub fn insert(&mut self, key: String, value: String)
        ensures
            final(self)@ =~= old(self)@.push((key@, value@)),
    {
        let ghost before = self.pairs@;
        self.pairs.push((key, value));
        proof {
            assert(final(self)@ =~= pairs_view(before).push(
                (self.pairs@.last().0@, self.pairs@.last().1@),
            ));
        }
    }

    /// The value stored under `key`, if any: the latest pair of that key.
    pub fn get(&self, key: &str) -> (r: Option<String>)
        ensures
            match r {
                Option::Some(v) => cfg_lookup(self@, key@) == Option::Some(v@),
                Option::None => cfg_lookup(self@, key@) is None,
            },
    {
        let n = self.pairs.len();
        proof {
            assert(self@.take(n as int) =~= self@);
        }
        let mut i: usize = n;
        while i > 0
            invariant
                i <= n,
                n == self.pairs@.len(),
                cfg_lookup(self@, key@) == cfg_lookup(self@.take(i as int), key@),
            decreases i,
        {
            i -= 1;
            let p = &self.pairs[i];
            proof {
                assert(self@.take(i + 1).last() == (p.0@, p.1@));
                assert(self@.take(i + 1).drop_last() =~= self@.take(i as int));
            }
            if str_eq(p.0.as_str(), key) {
                return Some(p.1.clone());
            }
        }
        proof {
            assert(self@.take(0) =~= Seq::<(Seq<char>, Seq<char>)>::empty());
        }
        None
    }
}

/// Parse a configuration text into its pairs. The first non-comment line
/// without `=` fails the whole parse with `ConfigError` carrying that line.
pub fn parse_props_from_string(file_contents: String) -> (r: Result<Config, KapiError>)
    ensures
        match r {
            Ok(c) => parse_props_spec(file_contents@) matches Ok(ps) && c@ == ps,
            Err(e) => e matches KapiError::ConfigError(bad) && (parse_props_spec(file_contents@)
                matches Err(b) && bad@ == b),
        },
{
    let s = file_contents.as_str();
    let n = s.unicode_len();
    let mut pairs: Vec<(String, String)> = Vec::new();
    let mut pos: usize = 0;
    proof {
        assert(s@.skip(0) =~= s@);
        assert(pairs_view(pairs@) =~= Seq::<(Seq<char>, Seq<char>)>::empty());
        assert(pairs_view(pairs@) + (Seq::<(Seq<char>, Seq<char>)>::empty()) =~= pairs_view(
            pairs@,
        ));
    }
    while pos < n
        invariant
            pos <= n,
            n == s@.len(),
            s@ == file_contents@,
            parse_props_spec(file_contents@) == combine(
                pairs_view(pairs@),
                parse_lines(split_lines(s@.skip(pos as int))),
            ),
        decreases n - pos,
    {
        let ghost suffix = s@.skip(pos as int);
        let mut j: usize = pos;
        let mut has_nl: bool = false;
        while j < n && !has_nl
            invariant
                pos <= j <= n,
                n == s@.len(),
                forall|k: int| pos <= k < j ==> s@[k] != '\n',
                has_nl ==> j < n && s@[j as int] == '\n',
            decreases 2 * (n - j) + (if has_nl {
                0int
            } else {
                1int
            }),
        {
            if s.get_char(j) == '\n' {
                has_nl = true;
            } else {
                j += 1;
            }
        }
        let mut lend: usize = j;
        if has_nl && j > pos && s.get_char(j - 1) == '\r' {
            lend = j - 1;
        }
        let line = s.substring_char(pos, lend);
        let llen = line.unicode_len();
        let ghost l = line@;
        proof {
            assert forall|k: int| 0 <= k < j - pos implies suffix[k] != '\n' by {
                assert(suffix[k] == s@[pos + k]);
            }
            if has_nl {
                assert(suffix[(j - pos) as int] == s@[j as int]);
                lemma_first_idx_is(suffix, '\n', (j - pos) as int);
                assert(suffix.take((j - pos) as int) =~= s@.subrange(pos as int, j as int));
                assert(suffix.skip((j - pos) as int + 1) =~= s@.skip(j as int + 1));
                if lend < j {
                    assert(suffix.take((j - pos) as int).last() == s@[j - 1]);
                    assert(strip_cr(suffix.take((j - pos) as int)) =~= s@.subrange(
                        pos as int,
                        lend as int,
                    ));
                } else {
                    if j > pos {
                        assert(suffix.take((j - pos) as int).last() == s@[j - 1]);
                    }
                    assert(strip_cr(suffix.take((j - pos) as int)) =~= s@.subrange(
                        pos as int,
                        lend as int,
                    ));
                }
                assert(split_lines(suffix) == seq![l] + split_lines(s@.skip(j as int + 1)));
            } else {
                lemma_first_idx_none(suffix, '\n');
                assert(suffix =~= s@.subrange(pos as int, n as int));
                assert(l == suffix);
                assert(split_lines(suffix) == seq![l]);
            }
        }
        let ghost rest_lines = if has_nl {
            split_lines(s@.skip(j as int + 1))
        } else {
            Seq::<Seq<char>>::empty()
        };
        proof {
            if !has_nl {
                assert(seq![l] + rest_lines =~= seq![l]);
            }
            assert(split_lines(suffix) == seq![l] + rest_lines);
            assert((seq![l] + rest_lines)[0] == l);
            assert((seq![l] + rest_lines).drop_first() =~= rest_lines);
        }
        let mut blank: bool = true;
        let mut b: usize = 0;
        while b < llen && blank
            invariant
                b <= llen,
                llen == l.len(),
                line@ == l,
                forall|k: int| 0 <= k < b ==> is_config_space(l[k]),
                !blank ==> b < llen && !is_config_space(l[b as int]),
            decreases 2 * (llen - b) + (if blank {
                1int
            } else {
                0int
            }),
        {
            let c = line.get_char(b);
            if c == ' ' || c == '\t' || c == '\r' {
                b += 1;
            } else {
                blank = false;
            }
        }
        let ignored: bool = if blank {
            true
        } else {
            let c0 = line.get_char(0);
            c0 == '#' || c0 == '-'
        };
        proof {
            if blank {
                assert(line_blank(l));
            } else {
                assert(!is_config_space(l[b as int]));
                assert(!line_blank(l));
            }
            assert(ignored == line_ignored(l));
        }
        if ignored {
            proof {
                assert(parse_lines(split_lines(suffix)) == parse_lines(rest_lines));
            }
        } else {
            let mut e: usize = 0;
            let mut found_eq: bool = false;
            while e < llen && !found_eq
                invariant
                    e <= llen,
                    llen == l.len(),
                    line@ == l,
                    forall|k: int| 0 <= k < e ==> l[k] != '=',
                    found_eq ==> e < llen && l[e as int] == '=',
                decreases 2 * (llen - e) + (if found_eq {
                    0int
                } else {
                    1int
                }),
            {
                if line.get_char(e) == '=' {
                    found_eq = true;
                } else {
                    e += 1;
                }
            }
            if !found_eq {
                proof {
                    lemma_first_idx_none(l, '=');
                    assert(split_kv(l) is None);
                    assert(parse_lines(split_lines(suffix)) == Err::<
                        Seq<(Seq<char>, Seq<char>)>,
                        Seq<char>,
                    >(l));
                }
                return Err(KapiError::ConfigError(line.to_owned()));
            }
            proof {
                lemma_first_idx_is(l, '=', e as int);
                assert(split_kv(l) == Option::Some((l.take(e as int), l.skip(e as int + 1))));
            }
            let key = line.substring_char(0, e).to_owned();
            let value = line.substring_char(e + 1, llen).to_owned();
            proof {
                assert(key@ =~= l.take(e as int));
                assert(value@ =~= l.skip(e as int + 1));
            }
            let ghost accb = pairs_view(pairs@);
            let ghost kv = (l.take(e as int), l.skip(e as int + 1));
            pairs.push((key, value));
            proof {
                assert(pairs_view(pairs@) =~= accb.push(kv));
                match parse_lines(rest_lines) {
                    Ok(ps) => {
                        assert(accb + (seq![kv] + ps) =~= accb.push(kv) + ps);
                    },
                    Err(_) => {},
                }
            }
        }
        if has_nl {
            pos = j + 1;
        } else {
            pos = n;
            proof {
                assert(s@.skip(n as int) =~= Seq::<char>::empty());
                assert(split_lines(s@.skip(n as int)) =~= rest_lines);
            }
        }
    }
    proof {
        assert(s@.skip(n as int) =~= Seq::<char>::empty());
        assert(pairs_view(pairs@) + Seq::<(Seq<char>, Seq<char>)>::empty() =~= pairs_view(pairs@));
    }
    Ok(Config { pairs })
}

} // verus!
