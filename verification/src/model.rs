//! Domain records fetched from and sent to the inventory backend.
//!
//! A freezer is identified by its name and carries a model (name and year),
//! an optional owner and a list of product lines, each a product name with a
//! quantity.  On the wire the product lines form a JSON object, so a
//! well-formed record never repeats a product name; [`unique_keys`] states
//! that invariant and [`dedup_products`] is the collapse an edit buffer goes
//! through before it is sent (for a repeated name the quantity written last
//! wins, as an insertion into a map would make it).

use vstd::prelude::*;

verus! {

/// Mathematical value of a [`Model`].
pub ghost struct ModelView {
    pub name: Seq<char>,
    pub year: usize,
}

/// A freezer model: a name and a production year.
pub struct Model {
    pub name: String,
    pub year: usize,
}

impl View for Model {
    type V = ModelView;

    open spec fn view(&self) -> ModelView {
        ModelView { name: self.name@, year: self.year }
    }
}

impl Clone for Model {
    fn clone(&self) -> (r: Self)
        ensures
            r@ == self@,
    {
        Model { name: self.name.clone(), year: self.year }
    }
}

/// Mathematical value of a [`Freezer`]: every string replaced by its
/// character sequence.
pub ghost struct FreezerView {
    pub name: Seq<char>,
    pub model: ModelView,
    pub owner: Option<Seq<char>>,
    pub products: Seq<(Seq<char>, usize)>,
}

/// The character sequences of an optional string.
pub open spec fn owner_view(o: Option<String>) -> Option<Seq<char>> {
    match o {
        Some(s) => Some(s@),
        None => None,
    }
}

/// The product lines of a freezer, each name replaced by its character
/// sequence.
pub open spec fn products_view(v: Seq<(String, usize)>) -> Seq<(Seq<char>, usize)> {
    v.map_values(|p: (String, usize)| (p.0@, p.1))
}

/// A freezer record as the backend stores it.
///
/// `products` maps a product name to the quantity held; as the image of a
/// JSON object it never repeats a name (see [`Freezer::wf`]).
pub struct Freezer {
    pub name: String,
    pub model: Model,
    pub owner: Option<String>,
    pub products: Vec<(String, usize)>,
}

impl View for Freezer {
    type V = FreezerView;

    open spec fn view(&self) -> FreezerView {
        FreezerView {
            name: self.name@,
            model: self.model@,
            owner: owner_view(self.owner),
            products: products_view(self.products@),
        }
    }
}

impl Freezer {
    /// A wire record is well-formed when no product name repeats.
    pub open spec fn wf(self) -> bool {
        unique_keys(self@.products)
    }
}

impl Clone for Freezer {
    fn clone(&self) -> (r: Self)
        ensures
            r@ == self@,
    {
        let r = Freezer {
            name: self.name.clone(),
            model: self.model.clone(),
            owner: clone_owner(&self.owner),
            products: clone_products(&self.products),
        };
        proof {
            assert(r@.products =~= self@.products);
            assert(r@ == self@);
        }
        r
    }
}

/// Clones an optional owner name.
pub(crate) fn clone_owner(o: &Option<String>) -> (r: Option<String>)
    ensures
        owner_view(r) == owner_view(*o),
{
    match o {
        Some(s) => Some(s.clone()),
        None => None,
    }
}

/// Clones a list of product lines.
pub(crate) fn clone_products(v: &Vec<(String, usize)>) -> (r: Vec<(String, usize)>)
    ensures
        products_view(r@) == products_view(v@),
{
    let mut r: Vec<(String, usize)> = Vec::new();
    let n = v.len();
    for i in 0..n
        invariant
            n == v@.len(),
            r@.len() == i,
            forall|j: int| 0 <= j < i ==> products_view(r@)[j] == products_view(v@)[j],
    {
        r.push((v[i].0.clone(), v[i].1));
    }
    proof {
        assert(products_view(r@) =~= products_view(v@));
    }
    r
}

/// Mathematical value of a [`Product`].
pub ghost struct ProductView {
    pub name: Seq<char>,
    pub default: usize,
}

/// A catalog entry: a product name and the quantity a new line starts with.
pub struct Product {
    pub name: String,
    pub default: usize,
}

impl View for Product {
    type V = ProductView;

    open spec fn view(&self) -> ProductView {
        ProductView { name: self.name@, default: self.default }
    }
}

impl Clone for Product {
    fn clone(&self) -> (r: Self)
        ensures
            r@ == self@,
    {
        Product { name: self.name.clone(), default: self.default }
    }
}

/// No product name occurs twice.
pub open spec fn unique_keys(s: Seq<(Seq<char>, usize)>) -> bool {
    forall|i: int, j: int| 0 <= i < j < s.len() ==> s[i].0 != s[j].0
}

/// Some line carries the name `k`.
pub open spec fn contains_key(s: Seq<(Seq<char>, usize)>, k: Seq<char>) -> bool {
    exists|i: int| 0 <= i < s.len() && s[i].0 == k
}

/// The first index whose line carries the name `k`.
pub open spec fn key_index(s: Seq<(Seq<char>, usize)>, k: Seq<char>) -> int
    decreases s.len(),
{
    if s.len() == 0 {
        0
    } else if s[0].0 == k {
        0
    } else {
        1 + key_index(s.drop_first(), k)
    }
}

/// The map a list of product lines denotes: a later line for the same name
/// overwrites an earlier one, exactly as collecting the lines into a map
/// does.
pub open spec fn products_map(s: Seq<(Seq<char>, usize)>) -> Map<Seq<char>, usize>
    decreases s.len(),
{
    if s.len() == 0 {
        Map::empty()
    } else {
        products_map(s.drop_last()).insert(s.last().0, s.last().1)
    }
}

/// The collapse of an edit buffer: lines are taken in order; a line whose
/// name was already seen overwrites that earlier line in place, any other is
/// appended.  The result keeps the order of first occurrence and, for each
/// name, the quantity written last.
pub open spec fn dedup_products(s: Seq<(Seq<char>, usize)>) -> Seq<(Seq<char>, usize)>
    decreases s.len(),
{
    if s.len() == 0 {
        Seq::empty()
    } else {
        let rest = dedup_products(s.drop_last());
        if contains_key(rest, s.last().0) {
            rest.update(key_index(rest, s.last().0), s.last())
        } else {
            rest.push(s.last())
        }
    }
}

/// Where a name occurs, its first index is a real index, carries the name,
/// and nothing before it does.
pub proof fn lemma_key_index(s: Seq<(Seq<char>, usize)>, k: Seq<char>)
    requires
        contains_key(s, k),
    ensures
        0 <= key_index(s, k) < s.len(),
        s[key_index(s, k)].0 == k,
        forall|j: int| 0 <= j < key_index(s, k) ==> s[j].0 != k,
    decreases s.len(),
{
    if s.len() == 0 {
    } else if s[0].0 == k {
    } else {
        let t = s.drop_first();
        assert(contains_key(t, k)) by {
            let i = choose|i: int| 0 <= i < s.len() && s[i].0 == k;
            assert(t[i - 1] == s[i]);
        }
        lemma_key_index(t, k);
        assert forall|j: int| 0 <= j < key_index(s, k) implies s[j].0 != k by {
            if j > 0 {
                assert(s[j] == t[j - 1]);
            }
        }
    }
}

/// A first index is found exactly where a scan from the front stops: at an
/// index that carries the name while no earlier one does.
pub proof fn lemma_key_index_of_scan(s: Seq<(Seq<char>, usize)>, k: Seq<char>, j: int)
    requires
        0 <= j < s.len(),
        s[j].0 == k,
        forall|jj: int| 0 <= jj < j ==> s[jj].0 != k,
    ensures
        contains_key(s, k),
        key_index(s, k) == j,
    decreases s.len(),
{
    if j == 0 {
    } else {
        let t = s.drop_first();
        assert(t[j - 1] == s[j]);
        assert forall|jj: int| 0 <= jj < j - 1 implies t[jj].0 != k by {
            assert(t[jj] == s[jj + 1]);
        }
        lemma_key_index_of_scan(t, k, j - 1);
    }
}

/// The collapsed buffer never repeats a name.
pub proof fn lemma_dedup_unique(s: Seq<(Seq<char>, usize)>)
    ensures
        unique_keys(dedup_products(s)),
    decreases s.len(),
{
    if s.len() > 0 {
        let rest = dedup_products(s.drop_last());
        lemma_dedup_unique(s.drop_last());
        if contains_key(rest, s.last().0) {
            lemma_key_index(rest, s.last().0);
        }
    }
}

/// A name occurs in the collapsed buffer exactly where it occurred in the
/// buffer itself.
pub proof fn lemma_dedup_same_keys(s: Seq<(Seq<char>, usize)>)
    ensures
        forall|k: Seq<char>|
            contains_key(dedup_products(s), k) <==> #[trigger] contains_key(s, k),
    decreases s.len(),
{
    if s.len() > 0 {
        let front = s.drop_last();
        let rest = dedup_products(front);
        lemma_dedup_same_keys(front);
        assert forall|k: Seq<char>|
            contains_key(dedup_products(s), k) <==> #[trigger] contains_key(s, k) by {
            lemma_contains_key_step(s, k);
            if contains_key(rest, s.last().0) {
                lemma_key_index(rest, s.last().0);
                lemma_contains_key_update(rest, key_index(rest, s.last().0), s.last(), k);
            } else {
                lemma_contains_key_push(rest, s.last(), k);
            }
        }
    }
}

/// A name occurs in a buffer iff it occurs in the front or is the last name.
proof fn lemma_contains_key_step(s: Seq<(Seq<char>, usize)>, k: Seq<char>)
    requires
        s.len() > 0,
    ensures
        contains_key(s, k) <==> (contains_key(s.drop_last(), k) || s.last().0 == k),
{
    let front = s.drop_last();
    if contains_key(front, k) {
        let i = choose|i: int| 0 <= i < front.len() && front[i].0 == k;
        assert(s[i] == front[i]);
    }
    if contains_key(s, k) {
        let i = choose|i: int| 0 <= i < s.len() && s[i].0 == k;
        if i < s.len() - 1 {
            assert(front[i] == s[i]);
        }
    }
}

/// Appending a line adds exactly its name.
proof fn lemma_contains_key_push(
    s: Seq<(Seq<char>, usize)>,
    p: (Seq<char>, usize),
    k: Seq<char>,
)
    ensures
        contains_key(s.push(p), k) <==> (contains_key(s, k) || p.0 == k),
{
    let t = s.push(p);
    assert(t.last() == p);
    assert(t.drop_last() =~= s);
    lemma_contains_key_step(t, k);
}

/// Overwriting a line in place with one of the same name leaves the set of
/// names as it was.
proof fn lemma_contains_key_update(
    s: Seq<(Seq<char>, usize)>,
    i: int,
    p: (Seq<char>, usize),
    k: Seq<char>,
)
    requires
        0 <= i < s.len(),
        s[i].0 == p.0,
    ensures
        contains_key(s.update(i, p), k) <==> contains_key(s, k),
{
    let t = s.update(i, p);
    if contains_key(s, k) {
        let j = choose|j: int| 0 <= j < s.len() && s[j].0 == k;
        if j == i {
            assert(t[i].0 == k);
        } else {
            assert(t[j] == s[j]);
        }
    }
    if contains_key(t, k) {
        let j = choose|j: int| 0 <= j < t.len() && t[j].0 == k;
        if j == i {
            assert(s[i].0 == k);
        } else {
            assert(s[j] == t[j]);
        }
    }
}

/// Overwriting the single line of a name with a new quantity denotes the
/// same map as appending that line would: the name ends up at the new
/// quantity, every other name is untouched.
proof fn lemma_products_map_update(s: Seq<(Seq<char>, usize)>, i: int, p: (Seq<char>, usize))
    requires
        0 <= i < s.len(),
        s[i].0 == p.0,
        forall|j: int| i < j < s.len() ==> s[j].0 != p.0,
    ensures
        products_map(s.update(i, p)) == products_map(s).insert(p.0, p.1),
    decreases s.len(),
{
    let t = s.update(i, p);
    if i == s.len() - 1 {
        assert(t.drop_last() =~= s.drop_last());
        assert(t.last() == p);
        assert(products_map(t) == products_map(s.drop_last()).insert(p.0, p.1));
        assert(products_map(s).insert(p.0, p.1) =~= products_map(s.drop_last()).insert(
            s.last().0,
            s.last().1,
        ).insert(p.0, p.1));
        assert(products_map(s.drop_last()).insert(s.last().0, s.last().1).insert(p.0, p.1)
            =~= products_map(s.drop_last()).insert(p.0, p.1));
    } else {
        let front = s.drop_last();
        assert(t.drop_last() =~= front.update(i, p));
        assert(t.last() == s.last());
        assert(forall|j: int| i < j < front.len() ==> front[j] == s[j]);
        lemma_products_map_update(front, i, p);
        assert(products_map(t) == products_map(front).insert(p.0, p.1).insert(
            s.last().0,
            s.last().1,
        ));
        assert(s.last().0 != p.0);
        assert(products_map(front).insert(p.0, p.1).insert(s.last().0, s.last().1)
            =~= products_map(front).insert(s.last().0, s.last().1).insert(p.0, p.1));
    }
}

/// The collapse keeps the map a buffer denotes: for each name the quantity
/// written last.
pub proof fn lemma_dedup_products_map(s: Seq<(Seq<char>, usize)>)
    ensures
        products_map(dedup_products(s)) == products_map(s),
    decreases s.len(),
{
    if s.len() > 0 {
        let front = s.drop_last();
        let rest = dedup_products(front);
        lemma_dedup_products_map(front);
        lemma_dedup_unique(front);
        if contains_key(rest, s.last().0) {
            let i = key_index(rest, s.last().0);
            lemma_key_index(rest, s.last().0);
            assert(forall|j: int| i < j < rest.len() ==> rest[j].0 != s.last().0);
            lemma_products_map_update(rest, i, s.last());
        } else {
            let t = rest.push(s.last());
            assert(t.drop_last() =~= rest);
            assert(t.last() == s.last());
        }
    }
}

/// A buffer that never repeats a name is already collapsed.
pub proof fn lemma_dedup_identity(s: Seq<(Seq<char>, usize)>)
    requires
        unique_keys(s),
    ensures
        dedup_products(s) == s,
    decreases s.len(),
{
    if s.len() > 0 {
        let front = s.drop_last();
        assert(forall|i: int, j: int|
            0 <= i < j < front.len() ==> front[i].0 != front[j].0) by {
            assert(forall|i: int| 0 <= i < front.len() ==> front[i] == s[i]);
        }
        lemma_dedup_identity(front);
        assert(!contains_key(front, s.last().0)) by {
            if contains_key(front, s.last().0) {
                let i = choose|i: int| 0 <= i < front.len() && front[i].0 == s.last().0;
                assert(s[i].0 == s[s.len() - 1].0);
            }
        }
        assert(front.push(s.last()) =~= s);
    }
}

} // verus!
