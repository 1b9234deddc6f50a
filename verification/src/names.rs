//! Display names for newly created channels.

use rand::Rng;
use vstd::prelude::*;

verus! {

/// The labels of the stock pool, in the order in which the pool holds them.
pub open spec fn agent_labels() -> Seq<Seq<char>> {
    seq![
        "Astra"@, "Breach"@, "Brimstone"@, "Chamber"@, "Cypher"@, "Fade"@,
        "Gekko"@, "Harbor"@, "Jett"@, "KAY/O"@, "Killjoy"@, "Neon"@,
        "Omen"@, "Phoenix"@, "Raze"@, "Reyna"@, "Sage"@, "Skye"@,
        "Sova"@, "Viper"@, "Yoru"@,
    ]
}

/// The labels that a pool of strings stands for.
pub open spec fn labels_of(pool: Seq<String>) -> Seq<Seq<char>> {
    Seq::new(pool.len(), |i: int| pool[i]@)
}

/// A fixed, non-empty pool of labels from which channel names are drawn.
#[derive(Debug)]
pub struct NameProvider {
    pool: Vec<String>,
}

impl View for NameProvider {
    type V = Seq<Seq<char>>;

    closed spec fn view(&self) -> Seq<Seq<char>> {
        labels_of(self.pool@)
    }
}

/// Draws an index below `bound` with `rand::Rng::gen_range` on the generator
/// that `rand::thread_rng` hands out. `gen_range` panics on an empty range,
/// which `bound > 0` rules out, and samples the half-open range `0..bound`,
/// so the index lies below `bound`. Nothing is claimed about which index
/// comes out. `thread_rng` itself panics when the operating system cannot
/// seed the generator.
#[verifier::external_body]
fn random_index(bound: usize) -> (index: usize)
    requires
        bound > 0,
    ensures
        index < bound,
{
    rand::thread_rng().gen_range(0..bound)
}

impl NameProvider {
    #[verifier::type_invariant]
    spec fn nonempty(self) -> bool {
        self.pool@.len() > 0
    }

    /// A provider over `pool`, or `None` when `pool` holds no label.
    pub fn new(pool: Vec<String>) -> (provider: Option<NameProvider>)
        ensures
            provider is None <==> pool@.len() == 0,
            provider matches Some(p) ==> p@ == labels_of(pool@),
    {
        if pool.len() == 0 {
            None
        } else {
            Some(NameProvider { pool })
        }
    }

    /// The provider over the stock pool.
    pub fn agents() -> (provider: NameProvider)
        ensures
            provider@ == agent_labels(),
    {
        let mut pool: Vec<String> = Vec::new();
        pool.push("Astra".to_string());
        pool.push("Breach".to_string());
        pool.push("Brimstone".to_string());
        pool.push("Chamber".to_string());
        pool.push("Cypher".to_string());
        pool.push("Fade".to_string());
        pool.push("Gekko".to_string());
        pool.push("Harbor".to_string());
        pool.push("Jett".to_string());
        pool.push("KAY/O".to_string());
        pool.push("Killjoy".to_string());
        pool.push("Neon".to_string());
        pool.push("Omen".to_string());
        pool.push("Phoenix".to_string());
        pool.push("Raze".to_string());
        pool.push("Reyna".to_string());
        pool.push("Sage".to_string());
        pool.push("Skye".to_string());
        pool.push("Sova".to_string());
        pool.push("Viper".to_string());
        pool.push("Yoru".to_string());
        NameProvider { pool }
    }

    /// The number of labels in the pool, which is never zero.
    pub fn len(&self) -> (n: usize)
        ensures
            n == self@.len(),
            n > 0,
    {
        proof {
            use_type_invariant(self);
        }
        self.pool.len()
    }

    /// The label at position `index` of the pool.
    pub fn name_at(&self, index: usize) -> (name: String)
        requires
            index < self@.len(),
        ensures
            name@ == self@[index as int],
    {
        self.pool[index].clone()
    }

    /// A label of the pool, picked at random.
    pub fn next_name(&self) -> (name: String)
        ensures
            self@.contains(name@),
    {
        let index = random_index(self.len());
        self.name_at(index)
    }
}

/// A label of the stock pool, picked at random.
pub fn grab_vc_name() -> (name: String)
    ensures
        agent_labels().contains(name@),
{
    NameProvider::agents().next_name()
}

} // verus!
