use vstd::prelude::*;

verus! {

/// The first namespace bound to `prefix` in `entries`, scanning from the
/// front, or `None` when the prefix is not declared.
pub open spec fn lookup_prefix(entries: Seq<(Seq<char>, Seq<char>)>, prefix: Seq<char>) -> Option<
    Seq<char>,
>
    decreases entries.len(),
{
    if entries.len() == 0 {
        None
    } else if entries[0].0 == prefix {
        Some(entries[0].1)
    } else {
        lookup_prefix(entries.drop_first(), prefix)
    }
}

/// One unfolding of `lookup_prefix` on a non-empty sequence.
proof fn lemma_lookup_step(entries: Seq<(Seq<char>, Seq<char>)>, prefix: Seq<char>)
    requires
        entries.len() > 0,
    ensures
        lookup_prefix(entries, prefix) == if entries[0].0 == prefix {
            Some(entries[0].1)
        } else {
            lookup_prefix(entries.drop_first(), prefix)
        },
{
}

/// The declared namespace prefixes of a parse: a mapping from prefix to
/// namespace url. Only looked up during parsing, never changed by it.
/// A prefix declared twice resolves to its most recent namespace.
#[derive(Clone, Debug, PartialEq, Eq)]
pub struct NamespaceMap {
    entries: Vec<(String, String)>,
}

impl NamespaceMap {
    /// The declared (prefix, namespace) pairs, most recent first.
    pub closed spec fn view_pairs(self) -> Seq<(Seq<char>, Seq<char>)> {
        Seq::new(self.entries@.len(), |i: int| (self.entries@[i].0@, self.entries@[i].1@))
    }

    /// An empty registry.
    pub fn new() -> (r: NamespaceMap)
        ensures
            r.view_pairs() == Seq::<(Seq<char>, Seq<char>)>::empty(),
    {
        let r = NamespaceMap { entries: Vec::new() };
        proof {
            assert(r.view_pairs() =~= Seq::<(Seq<char>, Seq<char>)>::empty());
        }
        r
    }

    /// Declare a prefix; shadows any earlier declaration of the same prefix.
    pub fn insert(&mut self, prefix: String, namespace: String)
        ensures
            final(self).view_pairs() =~= seq![(prefix@, namespace@)] + old(self).view_pairs(),
    {
        self.entries.insert(0, (prefix, namespace));
        proof {
            assert(final(self).view_pairs() =~= seq![(prefix@, namespace@)] + old(
                self,
            ).view_pairs());
        }
    }

    /// The namespace a prefix resolves to, if it is declared.
    pub fn get(&self, prefix: &String) -> (r: Option<String>)
        ensures
            match r {
                Some(ns) => lookup_prefix(self.view_pairs(), prefix@) == Some(ns@),
                None => lookup_prefix(self.view_pairs(), prefix@) is None,
            },
    {
        let n = self.entries.len();
        let mut i: usize = 0;
        proof {
            assert(self.view_pairs().skip(0) =~= self.view_pairs());
        }
        while i < n
            invariant
                n == self.entries.len(),
                i <= n,
                lookup_prefix(self.view_pairs(), prefix@) == lookup_prefix(
                    self.view_pairs().skip(i as int),
                    prefix@,
                ),
            decreases n - i,
        {
            proof {
                assert(self.view_pairs().skip(i as int)[0] == self.view_pairs()[i as int]);
                assert(self.view_pairs()[i as int] == (
                    self.entries@[i as int].0@,
                    self.entries@[i as int].1@,
                ));
                assert(self.view_pairs().skip(i as int).drop_first() =~= self.view_pairs().skip(
                    i as int + 1,
                ));
                lemma_lookup_step(self.view_pairs().skip(i as int), prefix@);
            }
            if self.entries[i].0 == *prefix {
                return Some(self.entries[i].1.clone());
            }
            i = i + 1;
        }
        proof {
            assert(self.view_pairs().skip(n as int) =~= Seq::<(Seq<char>, Seq<char>)>::empty());
        }
        None
    }
}

/// The parse-scoped environment, created by the caller and read-only
/// during parsing.
#[derive(Clone, Debug, PartialEq, Eq)]
pub struct ParserContext {
    /// Whether the stylesheet being parsed is a user-agent stylesheet.
    pub in_user_agent_stylesheet: bool,
    /// The default namespace, applied to type selectors that carry no
    /// explicit prefix (but never to attribute selectors).
    pub default_namespace: Option<String>,
    /// The declared namespace prefixes.
    pub namespace_prefixes: NamespaceMap,
}

/// The mathematical content of a `ParserContext`: what the grammar reads
/// of it.
pub struct CtxV {
    pub in_user_agent_stylesheet: bool,
    pub default_namespace: Option<Seq<char>>,
    pub namespace_prefixes: Seq<(Seq<char>, Seq<char>)>,
}

/// The context of an author-origin parse: not a user-agent stylesheet, no
/// default namespace, no declared prefixes.
pub open spec fn author_origin_ctx() -> CtxV {
    CtxV {
        in_user_agent_stylesheet: false,
        default_namespace: None,
        namespace_prefixes: Seq::empty(),
    }
}

impl ParserContext {
    /// The view of this context.
    pub open spec fn ctx_view(self) -> CtxV {
        CtxV {
            in_user_agent_stylesheet: self.in_user_agent_stylesheet,
            default_namespace: match self.default_namespace {
                Some(ns) => Some(ns@),
                None => None,
            },
            namespace_prefixes: self.namespace_prefixes.view_pairs(),
        }
    }

    /// A fresh author-origin context.
    pub fn new() -> (r: ParserContext)
        ensures
            r.ctx_view() == author_origin_ctx(),
    {
        let r = ParserContext {
            in_user_agent_stylesheet: false,
            default_namespace: None,
            namespace_prefixes: NamespaceMap::new(),
        };
        r
    }
}

} // verus!
