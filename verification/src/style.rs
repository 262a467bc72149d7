//! Load-time style configuration: named colors, fonts and sizes, kept as an
//! association list with unique keys. A getter demands its key to be
//! present: a missing key is a configuration error that must never reach a
//! lookup.

use vstd::prelude::*;
use crate::cx::Cx;

verus! {

/// A style entry: a packed RGBA color, a font name, or a size in whole
/// units.
#[derive(Clone, PartialEq, Eq, Debug)]
pub enum StyleValue {
    Color(u32),
    Font(String),
    Size(i64),
}

/// A type constructed from the style table of a context.
pub trait Style: Sized {
    fn style(cx: &mut Cx) -> Self;
}

/// What looking `name` up in the style table yields: the value of the first
/// entry whose key matches.
pub open spec fn style_lookup(s: Seq<(String, StyleValue)>, name: Seq<char>) -> Option<StyleValue>
    decreases s.len(),
{
    if s.len() == 0 {
        Option::None
    } else if s[0].0@ == name {
        Option::Some(s[0].1)
    } else {
        style_lookup(s.skip(1), name)
    }
}

/// Updating the first entry of a key changes that key's lookup and no other.
proof fn lemma_style_update_at(
    s: Seq<(String, StyleValue)>,
    i: int,
    p: (String, StyleValue),
    name: Seq<char>,
)
    requires
        0 <= i < s.len(),
        s[i].0@ == p.0@,
        forall|k: int| 0 <= k < i ==> (#[trigger] s[k]).0@ != p.0@,
    ensures
        style_lookup(s.update(i, p), name) == (
            if name == p.0@ {
                Option::Some(p.1)
            } else {
                style_lookup(s, name)
            }
        ),
    decreases i,
{
    let u = s.update(i, p);
    if i == 0 {
        assert(u[0] == p);
        if name != p.0@ {
            assert(u.skip(1) =~= s.skip(1));
        }
    } else {
        assert(u[0] == s[0]);
        assert(s[0].0@ != p.0@);
        assert(u.skip(1) =~= s.skip(1).update(i - 1, p));
        assert(forall|k: int| 0 <= k < i - 1 ==> (#[trigger] s.skip(1)[k]).0@ != p.0@);
        lemma_style_update_at(s.skip(1), i - 1, p, name);
    }
}

/// Appending an entry under a fresh key changes that key's lookup and no
/// other.
proof fn lemma_style_push(s: Seq<(String, StyleValue)>, p: (String, StyleValue), name: Seq<char>)
    requires
        forall|k: int| 0 <= k < s.len() ==> (#[trigger] s[k]).0@ != p.0@,
    ensures
        style_lookup(s.push(p), name) == (
            if name == p.0@ {
                Option::Some(p.1)
            } else {
                style_lookup(s, name)
            }
        ),
    decreases s.len(),
{
    if s.len() == 0 {
        assert(s.push(p)[0] == p);
        if name != p.0@ {
            assert(style_lookup(s.push(p), name) == style_lookup(s.push(p).skip(1), name));
        }
    } else {
        assert(s.push(p)[0] == s[0]);
        assert(s.push(p).skip(1) =~= s.skip(1).push(p));
        assert(forall|k: int| 0 <= k < s.skip(1).len() ==> (#[trigger] s.skip(1)[k]).0@ != p.0@);
        lemma_style_push(s.skip(1), p, name);
    }
}

impl Cx {
    /// Set a style entry, replacing the first entry under the same key or
    /// appending a new one.
    fn style_set(&mut self, name: &str, value: StyleValue)
        ensures
            style_lookup(final(self).style_values@, name@) == Option::Some(value),
            forall|n: Seq<char>|
                n != name@ ==> #[trigger] style_lookup(final(self).style_values@, n)
                    == style_lookup(old(self).style_values@, n),
            *final(self) == (Cx { style_values: final(self).style_values, ..*old(self) }),
    {
        let key: String = name.to_owned();
        let n = self.style_values.len();
        let mut i: usize = 0;
        while i < n
            invariant
                i <= n,
                n == self.style_values@.len(),
                *self == *old(self),
                key@ == name@,
                forall|k: int| 0 <= k < i ==> (#[trigger] self.style_values@[k]).0@ != name@,
            decreases n - i,
        {
            if self.style_values[i].0 == key {
                let p = (key, value);
                proof {
                    lemma_style_update_at(
                        self.style_values@,
                        i as int,
                        p,
                        name@,
                    );
                    assert forall|nm: Seq<char>| nm != name@
                        implies #[trigger] style_lookup(
                            self.style_values@.update(i as int, p),
                            nm,
                        ) == style_lookup(self.style_values@, nm) by {
                        lemma_style_update_at(self.style_values@, i as int, p, nm);
                    }
                }
                self.style_values.set(i, p);
                return;
            }
            i += 1;
        }
        let p = (key, value);
        proof {
            assert forall|nm: Seq<char>|
                #[trigger] style_lookup(self.style_values@.push(p), nm) == (
                    if nm == name@ {
                        Option::Some(value)
                    } else {
                        style_lookup(self.style_values@, nm)
                    }
                ) by {
                lemma_style_push(self.style_values@, p, nm);
            }
        }
        self.style_values.push(p);
    }

    /// Find the style entry under `name`, if any.
    fn style_get(&self, name: &str) -> (r: Option<&StyleValue>)
        ensures
            (match r {
                Option::Some(v) => style_lookup(self.style_values@, name@) == Option::Some(*v),
                Option::None => style_lookup(self.style_values@, name@) is None,
            }),
    {
        let key: String = name.to_owned();
        let n = self.style_values.len();
        let mut i: usize = 0;
        proof {
            assert(self.style_values@.skip(0) =~= self.style_values@);
        }
        while i < n
            invariant
                i <= n,
                n == self.style_values@.len(),
                key@ == name@,
                style_lookup(self.style_values@, name@) == style_lookup(
                    self.style_values@.skip(i as int),
                    name@,
                ),
                forall|k: int| 0 <= k < i ==> (#[trigger] self.style_values@[k]).0@ != name@,
            decreases n - i,
        {
            if self.style_values[i].0 == key {
                proof {
                    assert(self.style_values@.skip(i as int)[0] == self.style_values@[i as int]);
                }
                return Option::Some(&self.style_values[i].1);
            }
            proof {
                assert(self.style_values@.skip(i as int).skip(1) =~= self.style_values@.skip(
                    i + 1,
                ));
            }
            i += 1;
        }
        proof {
            assert(self.style_values@.skip(n as int).len() == 0);
        }
        Option::None
    }

    /// The color registered under `name`; the key must be present and hold a
    /// color.
    pub fn color(&self, name: &str) -> (val: u32)
        requires
            style_lookup(self.style_values@, name@) matches Some(v) && v is Color,
        ensures
            style_lookup(self.style_values@, name@) == Option::Some(StyleValue::Color(val)),
    {
        match self.style_get(name) {
            Option::Some(StyleValue::Color(c)) => *c,
            _ => {
                proof {
                    assert(false);
                }
                0
            },
        }
    }

    /// The font name registered under `name`; the key must be present and
    /// hold a font.
    pub fn font(&self, name: &str) -> (val: String)
        requires
            style_lookup(self.style_values@, name@) matches Some(v) && v is Font,
        ensures
            (match style_lookup(self.style_values@, name@) {
                Option::Some(StyleValue::Font(f)) => val@ == f@,
                _ => false,
            }),
    {
        match self.style_get(name) {
            Option::Some(StyleValue::Font(f)) => f.clone(),
            _ => {
                proof {
                    assert(false);
                }
                String::new()
            },
        }
    }

    /// The size registered under `name`; the key must be present and hold a
    /// size.
    pub fn size(&self, name: &str) -> (val: i64)
        requires
            style_lookup(self.style_values@, name@) matches Some(v) && v is Size,
        ensures
            style_lookup(self.style_values@, name@) == Option::Some(StyleValue::Size(val)),
    {
        match self.style_get(name) {
            Option::Some(StyleValue::Size(s)) => *s,
            _ => {
                proof {
                    assert(false);
                }
                0
            },
        }
    }

    pub fn set_color(&mut self, name: &str, val: u32)
        ensures
            style_lookup(final(self).style_values@, name@) == Option::Some(StyleValue::Color(val)),
            forall|n: Seq<char>|
                n != name@ ==> #[trigger] style_lookup(final(self).style_values@, n)
                    == style_lookup(old(self).style_values@, n),
            *final(self) == (Cx { style_values: final(self).style_values, ..*old(self) }),
    {
        self.style_set(name, StyleValue::Color(val));
    }

    pub fn set_font(&mut self, name: &str, val: &str)
        ensures
            (match style_lookup(final(self).style_values@, name@) {
                Option::Some(StyleValue::Font(f)) => f@ == val@,
                _ => false,
            }),
            forall|n: Seq<char>|
                n != name@ ==> #[trigger] style_lookup(final(self).style_values@, n)
                    == style_lookup(old(self).style_values@, n),
            *final(self) == (Cx { style_values: final(self).style_values, ..*old(self) }),
    {
        self.style_set(name, StyleValue::Font(val.to_owned()));
    }

    pub fn set_size(&mut self, name: &str, val: i64)
        ensures
            style_lookup(final(self).style_values@, name@) == Option::Some(StyleValue::Size(val)),
            forall|n: Seq<char>|
                n != name@ ==> #[trigger] style_lookup(final(self).style_values@, n)
                    == style_lookup(old(self).style_values@, n),
            *final(self) == (Cx { style_values: final(self).style_values, ..*old(self) }),
    {
        self.style_set(name, StyleValue::Size(val));
    }
}

} // verus!
