use vstd::prelude::*;

verus! {

/// The mapping that a list of (name, value) pairs stands for: later pairs
/// win over earlier ones with the same name.
pub open spec fn pairs_map(s: Seq<(String, String)>) -> Map<Seq<char>, Seq<char>>
    decreases s.len(),
{
    if s.len() == 0 {
        Map::empty()
    } else {
        pairs_map(s.drop_last()).insert(s.last().0@, s.last().1@)
    }
}

/// No two pairs share a name.
pub open spec fn unique_names(s: Seq<(String, String)>) -> bool {
    forall|i: int, j: int| 0 <= i < j < s.len() ==> s[i].0@ != s[j].0@
}

proof fn lemma_pairs_map_push(s: Seq<(String, String)>, p: (String, String))
    ensures
        pairs_map(s.push(p)) == pairs_map(s).insert(p.0@, p.1@),
{
    assert(s.push(p).drop_last() =~= s);
}

proof fn lemma_pairs_map_nonempty(s: Seq<(String, String)>)
    requires
        s.len() > 0,
    ensures
        pairs_map(s).dom().contains(s.last().0@),
        pairs_map(s) != Map::<Seq<char>, Seq<char>>::empty(),
{
    assert(!Map::<Seq<char>, Seq<char>>::empty().dom().contains(s.last().0@));
}

proof fn lemma_pairs_map_update(s: Seq<(String, String)>, i: int, p: (String, String))
    requires
        unique_names(s),
        0 <= i < s.len(),
        s[i].0@ == p.0@,
    ensures
        pairs_map(s.update(i, p)) == pairs_map(s).insert(p.0@, p.1@),
    decreases s.len(),
{
    let t = s.update(i, p);
    if i == s.len() - 1 {
        assert(t.drop_last() =~= s.drop_last());
        assert(pairs_map(t) =~= pairs_map(s).insert(p.0@, p.1@));
    } else {
        assert(t.drop_last() =~= s.drop_last().update(i, p));
        lemma_pairs_map_update(s.drop_last(), i, p);
        assert(s.last().0@ != p.0@);
        assert(pairs_map(t) =~= pairs_map(s).insert(p.0@, p.1@));
    }
}

proof fn lemma_pairs_map_get(s: Seq<(String, String)>, n: Seq<char>)
    requires
        unique_names(s),
    ensures
        forall|i: int| 0 <= i < s.len() && s[i].0@ == n ==> pairs_map(s).contains_pair(n, s[i].1@),
        (forall|i: int| 0 <= i < s.len() ==> s[i].0@ != n) ==> !pairs_map(s).dom().contains(n),
    decreases s.len(),
{
    if s.len() > 0 {
        let rest = s.drop_last();
        lemma_pairs_map_get(rest, n);
        assert forall|i: int| 0 <= i < s.len() && s[i].0@ == n implies pairs_map(s).contains_pair(
            n,
            s[i].1@,
        ) by {
            if i < s.len() - 1 {
                assert(rest[i] == s[i]);
            }
        }
        if forall|i: int| 0 <= i < s.len() ==> s[i].0@ != n {
            assert forall|i: int| 0 <= i < rest.len() implies rest[i].0@ != n by {
                assert(rest[i] == s[i]);
            }
        }
    }
}

/// A copy of a list of pairs.
fn copy_pairs(s: &Vec<(String, String)>) -> (r: Vec<(String, String)>)
    ensures
        r@ == s@,
{
    let mut r: Vec<(String, String)> = Vec::new();
    let n: usize = s.len();
    let mut i: usize = 0;
    while i < n
        invariant
            n == s.len(),
            0 <= i <= n,
            r@ == s@.subrange(0, i as int),
        decreases n - i,
    {
        r.push((s[i].0.clone(), s[i].1.clone()));
        i = i + 1;
    }
    assert(s@.subrange(0, n as int) =~= s@);
    r
}

/// A lookup in the making: the key of a message and the named arguments to
/// put into its placeholders.
pub struct I18nBuilder {
    key: String,
    args: Vec<(String, String)>,
}

impl View for I18nBuilder {
    type V = (Seq<char>, Map<Seq<char>, Seq<char>>);

    /// The key, and the mapping from argument name to value.
    closed spec fn view(&self) -> Self::V {
        (self.key@, pairs_map(self.args@))
    }
}

impl I18nBuilder {
    /// The argument list never holds a name twice.
    pub closed spec fn wf(&self) -> bool {
        unique_names(self.args@)
    }

    /// Sets the argument `key` to `value`, replacing an earlier value of it.
    pub fn set_args(self, key: &str, value: &str) -> (r: Self)
        requires
            self.wf(),
        ensures
            r.wf(),
            r@ == (self@.0, self@.1.insert(key@, value@)),
    {
        let mut b = self;
        let name: String = key.to_owned();
        let val: String = value.to_owned();
        let n: usize = b.args.len();
        let mut i: usize = 0;
        while i < n
            invariant
                n == b.args.len(),
                b == self,
                unique_names(b.args@),
                name@ == key@,
                val@ == value@,
                0 <= i <= n,
                forall|j: int| 0 <= j < i ==> b.args@[j].0@ != key@,
            decreases n - i,
        {
            if b.args[i].0 == name {
                let ghost before = b.args@;
                proof {
                    lemma_pairs_map_update(before, i as int, (name, val));
                }
                b.args[i] = (name, val);
                assert(b.args@ =~= before.update(i as int, (name, val)));
                return b;
            }
            i = i + 1;
        }
        let ghost before = b.args@;
        proof {
            lemma_pairs_map_push(before, (name, val));
        }
        b.args.push((name, val));
        b
    }

    /// The key of the message.
    pub fn key(&self) -> (r: &str)
        ensures
            r@ == self@.0,
    {
        self.key.as_str()
    }

    /// The value of the argument `name`, if it has been set.
    pub fn arg(&self, name: &str) -> (r: Option<String>)
        requires
            self.wf(),
        ensures
            r matches Some(v) ==> self@.1.contains_pair(name@, v@),
            r is None ==> !self@.1.dom().contains(name@),
    {
        let wanted: String = name.to_owned();
        let n: usize = self.args.len();
        let mut i: usize = 0;
        while i < n
            invariant
                n == self.args.len(),
                wanted@ == name@,
                unique_names(self.args@),
                0 <= i <= n,
                forall|j: int| 0 <= j < i ==> self.args@[j].0@ != name@,
            decreases n - i,
        {
            if self.args[i].0 == wanted {
                proof {
                    lemma_pairs_map_get(self.args@, name@);
                }
                return Some(self.args[i].1.clone());
            }
            i = i + 1;
        }
        proof {
            lemma_pairs_map_get(self.args@, name@);
        }
        None
    }

    /// Whether no argument has been set.
    pub fn has_no_args(&self) -> (r: bool)
        requires
            self.wf(),
        ensures
            r == (self@.1 == Map::<Seq<char>, Seq<char>>::empty()),
    {
        if self.args.len() == 0 {
            assert(self.args@ =~= Seq::<(String, String)>::empty());
            true
        } else {
            proof {
                lemma_pairs_map_nonempty(self.args@);
            }
            false
        }
    }
}

/// What is asked of the catalog: a message key, and the named arguments
/// when there are any.
pub enum Request {
    Plain(Seq<char>),
    WithArgs(Seq<char>, Map<Seq<char>, Seq<char>>),
}

/// The request for the message `key` with the arguments `args`: a plain
/// lookup when no argument is set.
pub open spec fn request_of(key: Seq<char>, args: Map<Seq<char>, Seq<char>>) -> Request {
    if args == Map::<Seq<char>, Seq<char>>::empty() {
        Request::Plain(key)
    } else {
        Request::WithArgs(key, args)
    }
}

} // verus!

verus! {

/// A lookup ready to be handed to the catalog.
pub enum LookupPlan {
    Plain { key: String },
    WithArgs { key: String, args: Vec<(String, String)> },
}

impl View for LookupPlan {
    type V = Request;

    open spec fn view(&self) -> Request {
        match self {
            LookupPlan::Plain { key } => Request::Plain(key@),
            LookupPlan::WithArgs { key, args } => Request::WithArgs(key@, pairs_map(args@)),
        }
    }
}

impl LookupPlan {
    /// The argument list of a lookup with arguments holds no name twice.
    pub open spec fn wf(&self) -> bool {
        match self {
            LookupPlan::Plain { .. } => true,
            LookupPlan::WithArgs { args, .. } => unique_names(args@),
        }
    }
}

impl I18nBuilder {
    /// The lookup of the message `key` with the arguments set so far.
    pub fn plan(&self, key: &str) -> (r: LookupPlan)
        requires
            self.wf(),
        ensures
            r.wf(),
            r@ == request_of(key@, self@.1),
    {
        if self.has_no_args() {
            LookupPlan::Plain { key: key.to_owned() }
        } else {
            LookupPlan::WithArgs { key: key.to_owned(), args: copy_pairs(&self.args) }
        }
    }

    /// The lookup of the builder's own message with the arguments set so far.
    pub fn build_plan(&self) -> (r: LookupPlan)
        requires
            self.wf(),
        ensures
            r.wf(),
            r@ == request_of(self@.0, self@.1),
    {
        self.plan(self.key.as_str())
    }
}

/// Starts a lookup of the message `key`, with no arguments.
pub fn new(key: &str) -> (r: I18nBuilder)
    ensures
        r.wf(),
        r@ == (key@, Map::<Seq<char>, Seq<char>>::empty()),
{
    I18nBuilder { key: key.to_owned(), args: Vec::new() }
}

} // verus!
