//! Cache configuration and header composition.
//!
//! A [`CCOptions`] value holds the per-mount cache settings: an optional
//! expiry strategy (any `Fn(&str) -> String` over the served file's path), an
//! optional `max-age` in seconds, an optional visibility (`public` /
//! `private`), and the two presence flags `no-cache` and `no-store`. Every
//! field is independently optional; an absent field contributes nothing to the
//! output, never a default token.
//!
//! [`CCOptions::compose_headers`] turns a configuration into the header
//! values: the `Cache-Control` value is the comma-joined token list in the
//! fixed order visibility, `no-cache`, `no-store`, `max-age=<n>`, with a
//! trailing `;` kept for compatibility with existing consumers; the `Expires`
//! value is present exactly when an expiry strategy is configured and the
//! target file was successfully opened.

use crate::digits::lemma_spec_dec_len;
use crate::digits::spec_dec;
use crate::digits::u32_to_dec;
use std::sync::Arc;
use vstd::prelude::*;
use vstd::string::StringExecFns;

verus! {

/// The abstract value of a cache configuration: what each field contributes
/// to the composed headers. For the expiry strategy only its presence
/// matters here; the strategy itself is reached through
/// [`CCOptions::spec_expires`].
pub struct SpecCacheOpts {
    pub expires_present: bool,
    pub max_age: Option<u32>,
    pub is_public: Option<bool>,
    pub no_cache: bool,
    pub no_store: bool,
}

/// A cache configuration with every field absent.
pub open spec fn all_absent() -> SpecCacheOpts {
    SpecCacheOpts {
        expires_present: false,
        max_age: None,
        is_public: None,
        no_cache: false,
        no_store: false,
    }
}

pub open spec fn with_expires(o: SpecCacheOpts, present: bool) -> SpecCacheOpts {
    SpecCacheOpts { expires_present: present, ..o }
}

pub open spec fn with_max_age(o: SpecCacheOpts, max_age: Option<u32>) -> SpecCacheOpts {
    SpecCacheOpts { max_age: max_age, ..o }
}

pub open spec fn with_is_public(o: SpecCacheOpts, is_public: Option<bool>) -> SpecCacheOpts {
    SpecCacheOpts { is_public: is_public, ..o }
}

pub open spec fn with_no_cache(o: SpecCacheOpts, no_cache: bool) -> SpecCacheOpts {
    SpecCacheOpts { no_cache: no_cache, ..o }
}

pub open spec fn with_no_store(o: SpecCacheOpts, no_store: bool) -> SpecCacheOpts {
    SpecCacheOpts { no_store: no_store, ..o }
}

/// The visibility contribution: `public`, `private`, or nothing.
pub open spec fn spec_visibility(is_public: Option<bool>) -> Seq<Seq<char>> {
    match is_public {
        Some(true) => seq!["public"@],
        Some(false) => seq!["private"@],
        None => Seq::empty(),
    }
}

/// The contribution of a presence flag: its token, or nothing.
pub open spec fn spec_flag(present: bool, token: Seq<char>) -> Seq<Seq<char>> {
    if present {
        seq![token]
    } else {
        Seq::empty()
    }
}

/// The `max-age=<n>` contribution, `<n>` in decimal.
pub open spec fn spec_max_age(max_age: Option<u32>) -> Seq<Seq<char>> {
    match max_age {
        Some(n) => seq!["max-age="@ + spec_dec(n as nat)],
        None => Seq::empty(),
    }
}

/// The `Cache-Control` tokens of a configuration, in their fixed order:
/// visibility, `no-cache`, `no-store`, `max-age`.
pub open spec fn spec_tokens(o: SpecCacheOpts) -> Seq<Seq<char>> {
    spec_visibility(o.is_public) + spec_flag(o.no_cache, "no-cache"@) + spec_flag(
        o.no_store,
        "no-store"@,
    ) + spec_max_age(o.max_age)
}

/// Tokens joined with `", "` between neighbours.
pub open spec fn spec_join(tokens: Seq<Seq<char>>) -> Seq<char>
    decreases tokens.len(),
{
    if tokens.len() == 0 {
        Seq::empty()
    } else if tokens.len() == 1 {
        tokens[0]
    } else {
        tokens[0] + ", "@ + spec_join(tokens.drop_first())
    }
}

/// The full `Cache-Control` value: the joined tokens with the trailing `;`.
pub open spec fn spec_cache_control(o: SpecCacheOpts) -> Seq<char> {
    spec_join(spec_tokens(o)) + ";"@
}

/// Appending one more token extends the joined string by a separator (when
/// anything came before) and the token.
pub proof fn lemma_join_push(tokens: Seq<Seq<char>>, token: Seq<char>)
    ensures
        spec_join(tokens.push(token)) == if tokens.len() == 0 {
            token
        } else {
            spec_join(tokens) + ", "@ + token
        },
    decreases tokens.len(),
{
    if tokens.len() == 0 {
        assert(tokens.push(token)[0] == token);
        assert(spec_join(tokens.push(token)) == token);
    } else if tokens.len() == 1 {
        assert(tokens.push(token)[0] == tokens[0]);
        assert(tokens.push(token).drop_first() =~= seq![token]);
        assert(seq![token][0] == token);
        assert(spec_join(seq![token]) == token);
        assert(spec_join(tokens.push(token)) == tokens.push(token)[0] + ", "@ + spec_join(
            tokens.push(token).drop_first(),
        ));
        assert(spec_join(tokens.push(token)) == tokens[0] + ", "@ + token);
        assert(spec_join(tokens) + ", "@ + token == tokens[0] + ", "@ + token);
    } else {
        lemma_join_push(tokens.drop_first(), token);
        assert(tokens.push(token)[0] == tokens[0]);
        assert(tokens.push(token).drop_first() =~= tokens.drop_first().push(token));
        assert(spec_join(tokens.push(token)) == tokens[0] + ", "@ + spec_join(
            tokens.drop_first().push(token),
        ));
        assert(tokens[0] + ", "@ + (spec_join(tokens.drop_first()) + ", "@ + token) =~= (tokens[0]
            + ", "@ + spec_join(tokens.drop_first())) + ", "@ + token);
    }
}

/// Joining a non-empty list of non-empty tokens gives a non-empty string.
pub proof fn lemma_join_nonempty(tokens: Seq<Seq<char>>)
    requires
        tokens.len() > 0,
        tokens[0].len() > 0,
    ensures
        spec_join(tokens).len() > 0,
{
}

/// With every cache field absent, the `Cache-Control` value is exactly
/// `";"`: the always-emit policy produces the bare terminator, never a
/// fabricated token.
pub proof fn lemma_all_absent_cache_control(o: SpecCacheOpts)
    requires
        o.is_public is None,
        !o.no_cache,
        !o.no_store,
        o.max_age is None,
    ensures
        spec_cache_control(o) == ";"@,
{
    assert(spec_tokens(o) =~= Seq::<Seq<char>>::empty());
    assert(Seq::<char>::empty() + ";"@ =~= ";"@);
}

/// The `Cache-Control` tokens stand in one fixed order — visibility,
/// `no-cache`, `no-store`, `max-age` — as a function of the configuration's
/// final field values alone; and the visibility token is `public` for
/// `Some(true)`, `private` for `Some(false)`, and absent for `None`, never a
/// fabricated default.
pub proof fn lemma_token_order(o: SpecCacheOpts)
    ensures
        spec_tokens(o) == spec_visibility(o.is_public) + spec_flag(o.no_cache, "no-cache"@)
            + spec_flag(o.no_store, "no-store"@) + spec_max_age(o.max_age),
        o.is_public == Some(true) ==> spec_tokens(o).len() > 0 && spec_tokens(o)[0] == "public"@,
        o.is_public == Some(false) ==> spec_tokens(o).len() > 0 && spec_tokens(o)[0] == "private"@,
        o.is_public is None ==> forall|i: int|
            0 <= i < spec_tokens(o).len() ==> spec_tokens(o)[i] != "public"@ && spec_tokens(o)[i]
                != "private"@,
{
    reveal_strlit("public");
    reveal_strlit("private");
    reveal_strlit("no-cache");
    reveal_strlit("no-store");
    reveal_strlit("max-age=");
    let vis = spec_visibility(o.is_public);
    let nc = spec_flag(o.no_cache, "no-cache"@);
    let ns = spec_flag(o.no_store, "no-store"@);
    let ma = spec_max_age(o.max_age);
    let t = spec_tokens(o);
    if o.is_public is Some {
        assert(t[0] == vis[0]);
    } else {
        assert(t =~= nc + ns + ma);
        assert forall|i: int| 0 <= i < t.len() implies t[i] != "public"@ && t[i]
            != "private"@ by {
            if i < nc.len() {
                assert(t[i] == nc[i]);
                assert(t[i].len() == 8);
            } else if i < nc.len() + ns.len() {
                assert(t[i] == ns[i - nc.len()]);
                assert(t[i].len() == 8);
            } else {
                assert(t[i] == ma[i - nc.len() - ns.len()]);
                lemma_spec_dec_len(o.max_age->Some_0 as nat);
                assert(t[i].len() >= 9);
            }
            assert("public"@.len() == 6);
            assert("private"@.len() == 7);
        }
    }
}

/// Builder set calls commute: setting two different fields in either order
/// leaves the same configuration, so the composed headers cannot depend on
/// the order the builder was driven in.
pub proof fn lemma_setters_commute(
    o: SpecCacheOpts,
    e: bool,
    m: Option<u32>,
    p: Option<bool>,
    nc: bool,
    ns: bool,
)
    ensures
        with_expires(with_max_age(o, m), e) == with_max_age(with_expires(o, e), m),
        with_expires(with_is_public(o, p), e) == with_is_public(with_expires(o, e), p),
        with_expires(with_no_cache(o, nc), e) == with_no_cache(with_expires(o, e), nc),
        with_expires(with_no_store(o, ns), e) == with_no_store(with_expires(o, e), ns),
        with_max_age(with_is_public(o, p), m) == with_is_public(with_max_age(o, m), p),
        with_max_age(with_no_cache(o, nc), m) == with_no_cache(with_max_age(o, m), nc),
        with_max_age(with_no_store(o, ns), m) == with_no_store(with_max_age(o, m), ns),
        with_is_public(with_no_cache(o, nc), p) == with_no_cache(with_is_public(o, p), nc),
        with_is_public(with_no_store(o, ns), p) == with_no_store(with_is_public(o, p), ns),
        with_no_cache(with_no_store(o, ns), nc) == with_no_store(with_no_cache(o, nc), ns),
{
}

/// The inner, shared state of a [`CCOptions`].
pub(crate) struct CCOptionsInner<F> where F: Fn(&str) -> String {
    pub expires: Option<F>,
    pub max_age: Option<u32>,
    pub is_public: Option<bool>,
    pub no_cache: Option<()>,
    pub no_store: Option<()>,
}

/// An immutable cache configuration, shared by reference count. Cloning is
/// cheap: the clone is a second handle to the same state.
pub struct CCOptions<F>(pub(crate) Arc<CCOptionsInner<F>>) where F: Fn(&str) -> String;

/// A builder that starts from the all-absent configuration and accumulates
/// set calls, finalized by [`CCOptionsBuilder::build`] into a shared
/// [`CCOptions`].
pub struct CCOptionsBuilder<F>(CCOptionsInner<F>) where F: Fn(&str) -> String;

impl<F> View for CCOptionsBuilder<F> where F: Fn(&str) -> String {
    type V = SpecCacheOpts;

    closed spec fn view(&self) -> SpecCacheOpts {
        SpecCacheOpts {
            expires_present: self.0.expires is Some,
            max_age: self.0.max_age,
            is_public: self.0.is_public,
            no_cache: self.0.no_cache is Some,
            no_store: self.0.no_store is Some,
        }
    }
}

impl<F> View for CCOptions<F> where F: Fn(&str) -> String {
    type V = SpecCacheOpts;

    closed spec fn view(&self) -> SpecCacheOpts {
        SpecCacheOpts {
            expires_present: self.0.expires is Some,
            max_age: self.0.max_age,
            is_public: self.0.is_public,
            no_cache: self.0.no_cache is Some,
            no_store: self.0.no_store is Some,
        }
    }
}

impl<F> CCOptionsBuilder<F> where F: Fn(&str) -> String {
    /// The expiry strategy held by the builder, if one was set.
    pub closed spec fn spec_expires(&self) -> Option<F> {
        self.0.expires
    }

    /// Creates a builder with every field given directly. The builder
    /// methods usually read better.
    pub fn new(
        expires: Option<F>,
        max_age: Option<u32>,
        is_public: Option<bool>,
        no_cache: Option<()>,
        no_store: Option<()>,
    ) -> (r: CCOptionsBuilder<F>)
        ensures
            r@ == (SpecCacheOpts {
                expires_present: expires is Some,
                max_age: max_age,
                is_public: is_public,
                no_cache: no_cache is Some,
                no_store: no_store is Some,
            }),
            r.spec_expires() == expires,
    {
        CCOptionsBuilder(CCOptionsInner { expires, max_age, is_public, no_cache, no_store })
    }

    /// Creates a builder with every field absent.
    pub fn builder() -> (r: CCOptionsBuilder<F>)
        ensures
            r@ == all_absent(),
            r.spec_expires() is None,
    {
        CCOptionsBuilder(
            CCOptionsInner {
                expires: None,
                max_age: None,
                is_public: None,
                no_cache: None,
                no_store: None,
            },
        )
    }

    /// Sets or clears the expiry strategy; the other fields keep their values.
    pub fn expires(self, expires: Option<F>) -> (r: CCOptionsBuilder<F>)
        ensures
            r@ == with_expires(self@, expires is Some),
            r.spec_expires() == expires,
    {
        let CCOptionsBuilder(mut inner) = self;
        inner.expires = expires;
        CCOptionsBuilder(inner)
    }

    /// Sets or clears `max-age`; the other fields keep their values.
    pub fn max_age(self, max_age: Option<u32>) -> (r: CCOptionsBuilder<F>)
        ensures
            r@ == with_max_age(self@, max_age),
            r.spec_expires() == self.spec_expires(),
    {
        let CCOptionsBuilder(mut inner) = self;
        inner.max_age = max_age;
        CCOptionsBuilder(inner)
    }

    /// Sets or clears the visibility; the other fields keep their values.
    pub fn is_public(self, is_public: Option<bool>) -> (r: CCOptionsBuilder<F>)
        ensures
            r@ == with_is_public(self@, is_public),
            r.spec_expires() == self.spec_expires(),
    {
        let CCOptionsBuilder(mut inner) = self;
        inner.is_public = is_public;
        CCOptionsBuilder(inner)
    }

    /// Sets or clears `no-cache`; the other fields keep their values.
    pub fn no_cache(self, no_cache: Option<()>) -> (r: CCOptionsBuilder<F>)
        ensures
            r@ == with_no_cache(self@, no_cache is Some),
            r.spec_expires() == self.spec_expires(),
    {
        let CCOptionsBuilder(mut inner) = self;
        inner.no_cache = no_cache;
        CCOptionsBuilder(inner)
    }

    /// Sets or clears `no-store`; the other fields keep their values.
    pub fn no_store(self, no_store: Option<()>) -> (r: CCOptionsBuilder<F>)
        ensures
            r@ == with_no_store(self@, no_store is Some),
            r.spec_expires() == self.spec_expires(),
    {
        let CCOptionsBuilder(mut inner) = self;
        inner.no_store = no_store;
        CCOptionsBuilder(inner)
    }

    /// Finalizes the builder into an immutable, shareable configuration.
    pub fn build(self) -> (r: CCOptions<F>)
        ensures
            r@ == self@,
            r.spec_expires() == self.spec_expires(),
    {
        CCOptions(Arc::new(self.0))
    }

    /// Resets every field to absent.
    pub fn clear(self) -> (r: CCOptionsBuilder<F>)
        ensures
            r@ == all_absent(),
            r.spec_expires() is None,
    {
        CCOptionsBuilder(
            CCOptionsInner {
                expires: None,
                max_age: None,
                is_public: None,
                no_cache: None,
                no_store: None,
            },
        )
    }
}

impl<F> Clone for CCOptions<F> where F: Fn(&str) -> String {
    /// A clone is a second reference-counted handle to the same state.
    fn clone(&self) -> (r: Self)
        ensures
            r == *self,
    {
        CCOptions(Arc::clone(&self.0))
    }
}

/// The composed header values for one response: the `Cache-Control` value,
/// always present, and the `Expires` value, present only when owed.
pub struct CacheHeaders {
    pub cache_control: String,
    pub expires: Option<String>,
}

/// Appends `token` to the `Cache-Control` value under construction,
/// separated by `", "` from whatever came before it.
fn append_token(cc: &mut String, token: &str, Ghost(tokens): Ghost<Seq<Seq<char>>>)
    requires
        old(cc)@ == spec_join(tokens),
        forall|i: int| 0 <= i < tokens.len() ==> tokens[i].len() > 0,
        token@.len() > 0,
    ensures
        final(cc)@ == spec_join(tokens.push(token@)),
{
    proof {
        lemma_join_push(tokens, token@);
        if tokens.len() > 0 {
            lemma_join_nonempty(tokens);
        }
    }
    if !cc.as_str().is_empty() {
        cc.append(", ");
    }
    cc.append(token);
}

impl<F> CCOptions<F> where F: Fn(&str) -> String {
    /// The expiry strategy held by the configuration, if one was set.
    pub closed spec fn spec_expires(&self) -> Option<F> {
        self.0.expires
    }

    /// Builds the `Cache-Control` value of this configuration: the present
    /// tokens in the fixed order visibility, `no-cache`, `no-store`,
    /// `max-age`, comma-joined, with the trailing `;`.
    pub fn cache_control_value(&self) -> (r: String)
        ensures
            r@ == spec_cache_control(self@),
    {
        proof {
            reveal_strlit("public");
            reveal_strlit("private");
            reveal_strlit("no-cache");
            reveal_strlit("no-store");
            reveal_strlit("max-age=");
        }
        let ghost o = self@;
        let mut cc = String::new();
        let ghost mut tokens: Seq<Seq<char>> = Seq::empty();
        match self.0.is_public {
            Some(true) => {
                append_token(&mut cc, "public", Ghost(tokens));
                proof {
                    tokens = tokens.push("public"@);
                }
            },
            Some(false) => {
                append_token(&mut cc, "private", Ghost(tokens));
                proof {
                    tokens = tokens.push("private"@);
                }
            },
            None => {},
        }
        proof {
            assert(tokens =~= spec_visibility(o.is_public));
        }
        if self.0.no_cache.is_some() {
            append_token(&mut cc, "no-cache", Ghost(tokens));
            proof {
                tokens = tokens.push("no-cache"@);
            }
        }
        proof {
            assert(tokens =~= spec_visibility(o.is_public) + spec_flag(o.no_cache, "no-cache"@));
        }
        if self.0.no_store.is_some() {
            append_token(&mut cc, "no-store", Ghost(tokens));
            proof {
                tokens = tokens.push("no-store"@);
            }
        }
        proof {
            assert(tokens =~= spec_visibility(o.is_public) + spec_flag(o.no_cache, "no-cache"@)
                + spec_flag(o.no_store, "no-store"@));
        }
        if let Some(age) = self.0.max_age {
            let mut token = String::new();
            token.append("max-age=");
            let digits = u32_to_dec(age);
            token.append(digits.as_str());
            proof {
                assert(token@ =~= "max-age="@ + spec_dec(age as nat));
            }
            append_token(&mut cc, token.as_str(), Ghost(tokens));
            proof {
                tokens = tokens.push("max-age="@ + spec_dec(age as nat));
            }
        }
        proof {
            assert(tokens =~= spec_tokens(o));
        }
        cc.append(";");
        cc
    }

    /// Composes the header values for one response. The `Cache-Control`
    /// value is always produced, even when no token is present; the
    /// `Expires` value is produced exactly when an expiry strategy is
    /// configured and the target file was successfully opened, and is then
    /// whatever the strategy returns for the resolved file path.
    pub fn compose_headers(&self, path: &str, file_opened: bool) -> (h: CacheHeaders)
        requires
            self@.expires_present && file_opened ==> call_requires(
                self.spec_expires()->Some_0,
                (path,),
            ),
        ensures
            h.cache_control@ == spec_cache_control(self@),
            h.expires is Some <==> (self@.expires_present && file_opened),
            h.expires is Some ==> call_ensures(
                self.spec_expires()->Some_0,
                (path,),
                h.expires->Some_0,
            ),
    {
        let expires = if file_opened {
            match &self.0.expires {
                Some(f) => Some(f(path)),
                None => None,
            }
        } else {
            None
        };
        let cache_control = self.cache_control_value();
        CacheHeaders { cache_control, expires }
    }
}

} // verus!
