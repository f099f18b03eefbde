//! Production chains and the registry in which they are looked up.

use vstd::prelude::*;
use crate::node_url::{is_node_url, NodeUrl};

verus! {

/// A known production network: its name and its canonical endpoint.
#[derive(Debug)]
pub struct ProductionChain {
    name: String,
    end_point: NodeUrl,
}

/// A production chain as plain values.
pub struct ProductionChainView {
    /// The name of the chain.
    pub name: Seq<char>,
    /// The canonical endpoint of the chain, as text.
    pub end_point: Seq<char>,
}

impl View for ProductionChain {
    type V = ProductionChainView;

    closed spec fn view(&self) -> ProductionChainView {
        ProductionChainView { name: self.name@, end_point: self.end_point@ }
    }
}

impl ProductionChain {
    /// The chain called `name` that is reached at `end_point`.
    pub fn new(name: &str, end_point: NodeUrl) -> (r: Self)
        ensures
            r@.name == name@,
            r@.end_point == end_point@,
    {
        ProductionChain { name: name.to_owned(), end_point }
    }

    /// The name of the chain.
    pub fn name(&self) -> (r: &str)
        ensures
            r@ == self@.name,
    {
        self.name.as_str()
    }

    /// The canonical endpoint of the chain, which is always a URL.
    pub fn end_point(&self) -> (r: &str)
        ensures
            r@ == self@.end_point,
            is_node_url(r@),
    {
        self.end_point.as_str()
    }
}

impl Clone for ProductionChain {
    fn clone(&self) -> (r: Self)
        ensures
            r@ == self@,
    {
        ProductionChain { name: self.name.clone(), end_point: self.end_point.clone() }
    }
}

/// The first chain of `chains` whose endpoint is `end_point`, if there is one.
pub open spec fn chain_with_endpoint(
    chains: Seq<ProductionChainView>,
    end_point: Seq<char>,
) -> Option<ProductionChainView>
    decreases chains.len(),
{
    if chains.len() == 0 {
        None
    } else if chains[0].end_point == end_point {
        Some(chains[0])
    } else {
        chain_with_endpoint(chains.drop_first(), end_point)
    }
}

/// Whether some chain of `chains` has the endpoint `end_point`.
pub open spec fn has_endpoint(chains: Seq<ProductionChainView>, end_point: Seq<char>) -> bool {
    exists|i: int| 0 <= i < chains.len() && (#[trigger] chains[i]).end_point == end_point
}

/// A lookup by endpoint finds a chain exactly when some chain has that
/// endpoint; the chain found is one of the registry, it has the endpoint asked
/// for, and no chain before it has.
pub proof fn lemma_chain_with_endpoint(chains: Seq<ProductionChainView>, end_point: Seq<char>)
    ensures
        chain_with_endpoint(chains, end_point) is Some <==> has_endpoint(chains, end_point),
        chain_with_endpoint(chains, end_point) matches Some(chain) ==> {
            &&& chain.end_point == end_point
            &&& exists|i: int|
                0 <= i < chains.len() && #[trigger] chains[i] == chain && forall|j: int|
                    0 <= j < i ==> (#[trigger] chains[j]).end_point != end_point
        },
    decreases chains.len(),
{
    if chains.len() > 0 && chains[0].end_point != end_point {
        let rest = chains.drop_first();
        lemma_chain_with_endpoint(rest, end_point);
        if has_endpoint(chains, end_point) {
            let i = choose|i: int|
                0 <= i < chains.len() && (#[trigger] chains[i]).end_point == end_point;
            assert(rest[i - 1].end_point == end_point);
        }
        if let Some(chain) = chain_with_endpoint(rest, end_point) {
            let k = choose|k: int|
                0 <= k < rest.len() && #[trigger] rest[k] == chain && forall|j: int|
                    0 <= j < k ==> (#[trigger] rest[j]).end_point != end_point;
            assert(chains[k + 1] == chain);
            assert forall|j: int| 0 <= j < k + 1 implies (#[trigger] chains[j]).end_point
                != end_point by {
                if j > 0 {
                    assert(rest[j - 1] == chains[j]);
                }
            }
        }
    }
}

/// The views of `chains`, in the same order.
pub open spec fn chain_views(chains: Seq<ProductionChain>) -> Seq<ProductionChainView> {
    chains.map_values(|chain: ProductionChain| chain@)
}

/// The table of known production chains.
#[derive(Debug)]
pub struct ChainRegistry {
    chains: Vec<ProductionChain>,
}

impl View for ChainRegistry {
    type V = Seq<ProductionChainView>;

    /// The chains in the order in which they are searched.
    closed spec fn view(&self) -> Seq<ProductionChainView> {
        chain_views(self.chains@)
    }
}

impl ChainRegistry {
    /// The registry that holds `chains`, searched in the order given.
    pub fn new(chains: Vec<ProductionChain>) -> (r: Self)
        ensures
            r@ == chain_views(chains@),
    {
        ChainRegistry { chains }
    }

    /// The first chain whose endpoint is exactly `end_point`, if there is one.
    pub fn chain_by_endpoint(&self, end_point: &str) -> (r: Option<&ProductionChain>)
        ensures
            match r {
                Some(chain) => chain_with_endpoint(self@, end_point@) == Some(chain@),
                None => chain_with_endpoint(self@, end_point@) is None,
            },
    {
        let wanted = end_point.to_owned();
        let mut i: usize = 0;
        assert(self@.skip(0) == self@);
        while i < self.chains.len()
            invariant
                i <= self.chains.len(),
                wanted@ == end_point@,
                chain_with_endpoint(self@, end_point@) == chain_with_endpoint(
                    self@.skip(i as int),
                    end_point@,
                ),
            decreases self.chains.len() - i,
        {
            let chain = &self.chains[i];
            proof {
                let rest = self@.skip(i as int);
                assert(rest.drop_first() == self@.skip(i as int + 1));
            }
            if chain.end_point.is_text(&wanted) {
                return Some(chain);
            }
            i = i + 1;
        }
        None
    }
}

} // verus!
