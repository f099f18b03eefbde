//! The options of an extrinsic, their builder, and the resolution of the
//! chain that they target.

use std::path::PathBuf;
use vstd::prelude::*;
use crate::artifacts::{verifiable, verifiable_outcome, ContractArtifacts};
use crate::node_url::{
    is_node_url, parse_node_url, url_rendering, NodeUrl, UrlError, LOCAL_NODE_URL,
};
use crate::prod_chains::{
    chain_with_endpoint, has_endpoint, lemma_chain_with_endpoint, ChainRegistry, ProductionChain,
    ProductionChainView,
};
use crate::verbosity::Verbosity;

verus! {

/// `std::path::PathBuf`, carried as an opaque value.
#[verifier::external_type_specification]
#[verifier::external_body]
pub struct ExPathBuf(PathBuf);

/// The chain that a set of options targets.
#[derive(Clone, Debug, PartialEq, Eq)]
pub enum Chain {
    /// A known production network, by name.
    Production(String),
    /// No known production network: a local or otherwise custom node.
    Custom,
}

/// A [`Chain`] as plain values.
pub enum ChainView {
    /// A known production network, by name.
    Production(Seq<char>),
    /// No known production network.
    Custom,
}

impl View for Chain {
    type V = ChainView;

    open spec fn view(&self) -> ChainView {
        match self {
            Chain::Production(name) => ChainView::Production(name@),
            Chain::Custom => ChainView::Custom,
        }
    }
}

/// The chain and the endpoint that options resolve to.
///
/// A chain that was named wins, whatever the URL is. Without one, the URL is
/// looked up among the endpoints of the registry: a match gives that chain and
/// its canonical endpoint, no match gives a custom chain and the URL itself.
pub open spec fn resolve(
    chain: Option<ProductionChainView>,
    url: Seq<char>,
    registry: Seq<ProductionChainView>,
) -> (ChainView, Seq<char>) {
    match chain {
        Some(named) => (ChainView::Production(named.name), named.end_point),
        None => match chain_with_endpoint(registry, url) {
            Some(found) => (ChainView::Production(found.name), found.end_point),
            None => (ChainView::Custom, url),
        },
    }
}

/// Options as plain values: what [`ExtrinsicOpts`] and its builder hold.
pub struct ExtrinsicOptsView<Balance, Signer> {
    /// The path to the contract build artifact file.
    pub file: Option<PathBuf>,
    /// The path to the manifest of the contract.
    pub manifest_path: Option<PathBuf>,
    /// The URL of the node, as text.
    pub url: Seq<char>,
    /// The identity that signs the extrinsic.
    pub signer: Signer,
    /// The most that may be charged from the caller for storage.
    pub storage_deposit_limit: Option<Balance>,
    /// The reporting level.
    pub verbosity: Verbosity,
    /// The production chain that was named, if one was.
    pub chain: Option<ProductionChainView>,
}

impl<Balance, Signer> ExtrinsicOptsView<Balance, Signer> {
    /// The options that a new builder holds for `signer`.
    pub open spec fn initial(signer: Signer) -> Self {
        ExtrinsicOptsView {
            file: None,
            manifest_path: None,
            url: LOCAL_NODE_URL@,
            signer,
            storage_deposit_limit: None,
            verbosity: Verbosity::Default,
            chain: None,
        }
    }

    /// These options with the artifact file replaced.
    pub open spec fn with_file(self, file: Option<PathBuf>) -> Self {
        ExtrinsicOptsView { file, ..self }
    }

    /// These options with the manifest path replaced.
    pub open spec fn with_manifest_path(self, manifest_path: Option<PathBuf>) -> Self {
        ExtrinsicOptsView { manifest_path, ..self }
    }

    /// These options with the node URL replaced.
    pub open spec fn with_url(self, url: Seq<char>) -> Self {
        ExtrinsicOptsView { url, ..self }
    }

    /// These options with the storage deposit limit replaced.
    pub open spec fn with_storage_deposit_limit(
        self,
        storage_deposit_limit: Option<Balance>,
    ) -> Self {
        ExtrinsicOptsView { storage_deposit_limit, ..self }
    }

    /// These options with the reporting level replaced.
    pub open spec fn with_verbosity(self, verbosity: Verbosity) -> Self {
        ExtrinsicOptsView { verbosity, ..self }
    }

    /// These options with the named chain replaced.
    pub open spec fn with_chain(self, chain: Option<ProductionChainView>) -> Self {
        ExtrinsicOptsView { chain, ..self }
    }

    /// The chain and the endpoint that these options resolve to.
    pub open spec fn chain_and_endpoint(self, registry: Seq<ProductionChainView>) -> (
        ChainView,
        Seq<char>,
    ) {
        resolve(self.chain, self.url, registry)
    }
}

/// The chain that a builder is handed, as plain values.
pub open spec fn named_chain(chain: Option<ProductionChain>) -> Option<ProductionChainView> {
    match chain {
        Some(chain) => Some(chain@),
        None => None,
    }
}

/// A path of the options as the loader receives it.
pub open spec fn borrowed(path: &Option<PathBuf>) -> Option<&PathBuf> {
    match path {
        Some(p) => Some(p),
        None => None,
    }
}

/// Arguments required for creating and sending an extrinsic to a node.
#[derive(Clone)]
pub struct ExtrinsicOpts<Balance, Signer: Clone> {
    file: Option<PathBuf>,
    manifest_path: Option<PathBuf>,
    url: NodeUrl,
    signer: Signer,
    storage_deposit_limit: Option<Balance>,
    verbosity: Verbosity,
    chain: Option<ProductionChain>,
}

impl<Balance, Signer: Clone> View for ExtrinsicOpts<Balance, Signer> {
    type V = ExtrinsicOptsView<Balance, Signer>;

    closed spec fn view(&self) -> ExtrinsicOptsView<Balance, Signer> {
        ExtrinsicOptsView {
            file: self.file,
            manifest_path: self.manifest_path,
            url: self.url@,
            signer: self.signer,
            storage_deposit_limit: self.storage_deposit_limit,
            verbosity: self.verbosity,
            chain: named_chain(self.chain),
        }
    }
}

/// A builder for extrinsic options.
pub struct ExtrinsicOptsBuilder<Balance, Signer: Clone> {
    opts: ExtrinsicOpts<Balance, Signer>,
}

impl<Balance, Signer: Clone> View for ExtrinsicOptsBuilder<Balance, Signer> {
    type V = ExtrinsicOptsView<Balance, Signer>;

    /// The options that [`ExtrinsicOptsBuilder::done`] would return.
    closed spec fn view(&self) -> ExtrinsicOptsView<Balance, Signer> {
        self.opts@
    }
}

impl<Balance, Signer: Clone> ExtrinsicOptsBuilder<Balance, Signer> {
    /// Returns a clean builder: nothing is set but the signer, the node is the
    /// local development endpoint and the reporting level is the standard one.
    pub fn new(signer: Signer) -> (r: Self)
        ensures
            r@ == ExtrinsicOptsView::<Balance, Signer>::initial(signer),
    {
        ExtrinsicOptsBuilder {
            opts: ExtrinsicOpts {
                file: None,
                manifest_path: None,
                url: NodeUrl::local(),
                signer,
                storage_deposit_limit: None,
                verbosity: Verbosity::Default,
                chain: None,
            },
        }
    }

    /// Sets the path to the contract build artifact file.
    pub fn file(self, file: Option<PathBuf>) -> (r: Self)
        ensures
            r@ == self@.with_file(file),
    {
        let mut this = self;
        this.opts.file = file;
        this
    }

    /// Sets the path to the manifest of the contract.
    pub fn manifest_path(self, manifest_path: Option<PathBuf>) -> (r: Self)
        ensures
            r@ == self@.with_manifest_path(manifest_path),
    {
        let mut this = self;
        this.opts.manifest_path = manifest_path;
        this
    }

    /// Sets the URL of the node.
    pub fn url(self, url: NodeUrl) -> (r: Self)
        ensures
            r@ == self@.with_url(url@),
    {
        let mut this = self;
        this.opts.url = url;
        this
    }

    /// Sets the maximum amount of balance that can be charged from the caller
    /// to pay for storage.
    pub fn storage_deposit_limit(self, storage_deposit_limit: Option<Balance>) -> (r: Self)
        ensures
            r@ == self@.with_storage_deposit_limit(storage_deposit_limit),
    {
        let mut this = self;
        this.opts.storage_deposit_limit = storage_deposit_limit;
        this
    }

    /// Sets the reporting level.
    pub fn verbosity(self, verbosity: Verbosity) -> (r: Self)
        ensures
            r@ == self@.with_verbosity(verbosity),
    {
        let mut this = self;
        this.opts.verbosity = verbosity;
        this
    }

    /// Names the production chain, or with `None` takes the name back.
    pub fn chain(self, chain: Option<ProductionChain>) -> (r: Self)
        ensures
            r@ == self@.with_chain(named_chain(chain)),
    {
        let mut this = self;
        this.opts.chain = chain;
        this
    }

    /// Finishes the builder and returns the options that it holds.
    pub fn done(self) -> (r: ExtrinsicOpts<Balance, Signer>)
        ensures
            r@ == self@,
    {
        self.opts
    }
}

impl<Balance, Signer: Clone> ExtrinsicOpts<Balance, Signer> {
    /// Loads the contract artifacts with `load`, which is handed the manifest
    /// path and the artifact file of these options, in that order. What the
    /// loader returns is returned as it is, its error included.
    pub fn contract_artifacts<E, L>(&self, load: L) -> (r: Result<ContractArtifacts, E>) where
        L: FnOnce(Option<&PathBuf>, Option<&PathBuf>) -> Result<ContractArtifacts, E>,

        requires
            call_requires(load, (borrowed(&self@.manifest_path), borrowed(&self@.file))),
        ensures
            call_ensures(load, (borrowed(&self@.manifest_path), borrowed(&self@.file)), r),
    {
        load(self.manifest_path.as_ref(), self.file.as_ref())
    }

    /// Return the file path of the contract artifact.
    pub fn file(&self) -> (r: Option<&PathBuf>)
        ensures
            r == borrowed(&self@.file),
    {
        self.file.as_ref()
    }

    /// Return the path to the manifest of the contract.
    pub fn manifest_path(&self) -> (r: Option<&PathBuf>)
        ensures
            r == borrowed(&self@.manifest_path),
    {
        self.manifest_path.as_ref()
    }

    /// Return the URL of the node, as text: the rendering of the URL that was
    /// set, or the local development endpoint where none was.
    pub fn url(&self) -> (r: String)
        ensures
            r@ == self@.url,
            is_node_url(r@),
    {
        self.url.as_str().to_owned()
    }

    /// Get the chain and its endpoint.
    ///
    /// A named chain wins over the URL. Without one, a URL that is the
    /// endpoint of a chain in `registry` is resolved to that chain and its
    /// canonical endpoint; any other URL is a custom chain, reached at the
    /// URL itself. The endpoint returned is always a URL.
    pub fn chain_and_endpoint(&self, registry: &ChainRegistry) -> (r: (Chain, String))
        ensures
            r@ == self@.chain_and_endpoint(registry@),
            is_node_url(r.1@),
    {
        if let Some(chain) = &self.chain {
            (Chain::Production(chain.name().to_owned()), chain.end_point().to_owned())
        } else {
            let url = self.url();
            if let Some(chain) = registry.chain_by_endpoint(url.as_str()) {
                (Chain::Production(chain.name().to_owned()), chain.end_point().to_owned())
            } else {
                (Chain::Custom, url)
            }
        }
    }

    /// Whether the contract artifacts that `load` finds are verifiable. Fails
    /// with the loader's error when the loader fails, and only then.
    pub fn is_verifiable<E, L>(&self, load: L) -> (r: Result<bool, E>) where
        L: FnOnce(Option<&PathBuf>, Option<&PathBuf>) -> Result<ContractArtifacts, E>,

        requires
            call_requires(load, (borrowed(&self@.manifest_path), borrowed(&self@.file))),
        ensures
            exists|loaded: Result<ContractArtifacts, E>|
                #![trigger verifiable_outcome(loaded)]
                call_ensures(load, (borrowed(&self@.manifest_path), borrowed(&self@.file)), loaded)
                    && r == verifiable_outcome(loaded),
    {
        let loaded = self.contract_artifacts(load);
        verifiable(loaded)
    }

    /// Return the signer.
    pub fn signer(&self) -> (r: &Signer)
        ensures
            *r == self@.signer,
    {
        &self.signer
    }

    /// Return the storage deposit limit.
    pub fn storage_deposit_limit(&self) -> (r: Option<Balance>) where Balance: Copy,

        ensures
            r == self@.storage_deposit_limit,
    {
        self.storage_deposit_limit
    }

    /// Verbosity for message reporting.
    pub fn verbosity(&self) -> (r: &Verbosity)
        ensures
            *r == self@.verbosity,
    {
        &self.verbosity
    }
}

/// A text that the parser accepts is taken as a node URL, and options on
/// which that URL is set give back, as their URL, the rendering of the text.
/// A text that the parser rejects is no node URL. Two texts with one rendering
/// give one node URL, so options set from either are the same options.
pub proof fn lemma_url_is_the_rendering<Balance, Signer>(
    opts: ExtrinsicOptsView<Balance, Signer>,
    text: Seq<char>,
    other: Seq<char>,
)
    ensures
        url_rendering(text) matches Some(rendering) ==> {
            &&& parse_node_url(text) == Ok::<Seq<char>, UrlError>(rendering)
            &&& opts.with_url(rendering).url == rendering
            &&& is_node_url(opts.with_url(rendering).url)
        },
        url_rendering(text) is None ==> parse_node_url(text) == Err::<Seq<char>, UrlError>(
            UrlError::InvalidUrl,
        ),
        url_rendering(text) == url_rendering(other) ==> parse_node_url(text) == parse_node_url(
            other,
        ),
{
}

/// The last call of a setter wins: setting a field twice leaves the options
/// that setting it once, to the second value, leaves.
pub proof fn lemma_last_setting_wins<Balance, Signer>(
    opts: ExtrinsicOptsView<Balance, Signer>,
    files: (Option<PathBuf>, Option<PathBuf>),
    manifest_paths: (Option<PathBuf>, Option<PathBuf>),
    urls: (Seq<char>, Seq<char>),
    limits: (Option<Balance>, Option<Balance>),
    verbosities: (Verbosity, Verbosity),
    chains: (Option<ProductionChainView>, Option<ProductionChainView>),
)
    ensures
        opts.with_file(files.0).with_file(files.1) == opts.with_file(files.1),
        opts.with_manifest_path(manifest_paths.0).with_manifest_path(manifest_paths.1)
            == opts.with_manifest_path(manifest_paths.1),
        opts.with_url(urls.0).with_url(urls.1) == opts.with_url(urls.1),
        opts.with_storage_deposit_limit(limits.0).with_storage_deposit_limit(limits.1)
            == opts.with_storage_deposit_limit(limits.1),
        opts.with_verbosity(verbosities.0).with_verbosity(verbosities.1) == opts.with_verbosity(
            verbosities.1,
        ),
        opts.with_chain(chains.0).with_chain(chains.1) == opts.with_chain(chains.1),
{
}

/// Setters of different fields can be called in either order: each changes
/// its own field and leaves the others as they were.
pub proof fn lemma_setters_commute<Balance, Signer>(
    opts: ExtrinsicOptsView<Balance, Signer>,
    file: Option<PathBuf>,
    manifest_path: Option<PathBuf>,
    url: Seq<char>,
    limit: Option<Balance>,
    verbosity: Verbosity,
    chain: Option<ProductionChainView>,
)
    ensures
        opts.with_file(file).with_manifest_path(manifest_path) == opts.with_manifest_path(
            manifest_path,
        ).with_file(file),
        opts.with_file(file).with_url(url) == opts.with_url(url).with_file(file),
        opts.with_file(file).with_storage_deposit_limit(limit) == opts.with_storage_deposit_limit(
            limit,
        ).with_file(file),
        opts.with_file(file).with_verbosity(verbosity) == opts.with_verbosity(verbosity).with_file(
            file,
        ),
        opts.with_file(file).with_chain(chain) == opts.with_chain(chain).with_file(file),
        opts.with_manifest_path(manifest_path).with_url(url) == opts.with_url(
            url,
        ).with_manifest_path(manifest_path),
        opts.with_manifest_path(manifest_path).with_storage_deposit_limit(limit)
            == opts.with_storage_deposit_limit(limit).with_manifest_path(manifest_path),
        opts.with_manifest_path(manifest_path).with_verbosity(verbosity) == opts.with_verbosity(
            verbosity,
        ).with_manifest_path(manifest_path),
        opts.with_manifest_path(manifest_path).with_chain(chain) == opts.with_chain(
            chain,
        ).with_manifest_path(manifest_path),
        opts.with_url(url).with_storage_deposit_limit(limit) == opts.with_storage_deposit_limit(
            limit,
        ).with_url(url),
        opts.with_url(url).with_verbosity(verbosity) == opts.with_verbosity(verbosity).with_url(
            url,
        ),
        opts.with_url(url).with_chain(chain) == opts.with_chain(chain).with_url(url),
        opts.with_storage_deposit_limit(limit).with_verbosity(verbosity) == opts.with_verbosity(
            verbosity,
        ).with_storage_deposit_limit(limit),
        opts.with_storage_deposit_limit(limit).with_chain(chain) == opts.with_chain(
            chain,
        ).with_storage_deposit_limit(limit),
        opts.with_verbosity(verbosity).with_chain(chain) == opts.with_chain(chain).with_verbosity(
            verbosity,
        ),
{
}

/// Resolution never fails and gives exactly one classification: a production
/// chain or a custom one, never both, whatever chain is named, whatever the
/// URL is and whatever the registry holds.
pub proof fn lemma_resolution_is_total(
    chain: Option<ProductionChainView>,
    url: Seq<char>,
    registry: Seq<ProductionChainView>,
)
    ensures
        (resolve(chain, url, registry).0 is Production) != (resolve(chain, url, registry).0
            is Custom),
        resolve(chain, url, registry).0 is Production <==> chain is Some || has_endpoint(
            registry,
            url,
        ),
{
    lemma_chain_with_endpoint(registry, url);
}

/// The resolution is a function of the named chain and the URL alone: options
/// that agree in both resolve alike, so no other setter changes what options
/// resolve to.
pub proof fn lemma_resolution_reads_chain_and_url<Balance, Signer>(
    opts: ExtrinsicOptsView<Balance, Signer>,
    other: ExtrinsicOptsView<Balance, Signer>,
    registry: Seq<ProductionChainView>,
)
    requires
        opts.chain == other.chain,
        opts.url == other.url,
    ensures
        opts.chain_and_endpoint(registry) == other.chain_and_endpoint(registry),
{
}

/// A named chain wins: the options resolve to that chain and its canonical
/// endpoint, whatever the URL is and whatever the registry holds.
pub proof fn lemma_named_chain_wins(
    chain: ProductionChainView,
    url: Seq<char>,
    registry: Seq<ProductionChainView>,
)
    ensures
        resolve(Some(chain), url, registry) == (
            ChainView::Production(chain.name),
            chain.end_point,
        ),
{
}

/// Without a named chain, a URL that is the endpoint of a chain of the
/// registry resolves to a production chain and to that same endpoint. The
/// chain is the first of the registry that has the endpoint.
pub proof fn lemma_known_endpoint_is_production(
    url: Seq<char>,
    registry: Seq<ProductionChainView>,
)
    requires
        has_endpoint(registry, url),
    ensures
        resolve(None, url, registry).1 == url,
        exists|i: int|
            0 <= i < registry.len() && (#[trigger] registry[i]).end_point == url && resolve(
                None,
                url,
                registry,
            ).0 == ChainView::Production(registry[i].name) && forall|j: int|
                0 <= j < i ==> (#[trigger] registry[j]).end_point != url,
{
    lemma_chain_with_endpoint(registry, url);
    let found = chain_with_endpoint(registry, url)->0;
    let i = choose|i: int|
        0 <= i < registry.len() && #[trigger] registry[i] == found && forall|j: int|
            0 <= j < i ==> (#[trigger] registry[j]).end_point != url;
    assert(registry[i].end_point == url);
}

/// Without a named chain, a URL that is the endpoint of no chain of the
/// registry resolves to a custom chain, reached at the URL itself.
pub proof fn lemma_unknown_endpoint_is_custom(url: Seq<char>, registry: Seq<ProductionChainView>)
    requires
        !has_endpoint(registry, url),
    ensures
        resolve(None, url, registry) == (ChainView::Custom, url),
{
    lemma_chain_with_endpoint(registry, url);
}

/// Options on which nothing was set resolve to a custom chain at the local
/// development endpoint, unless the registry lists that endpoint.
pub proof fn lemma_new_options_are_local<Balance, Signer>(
    signer: Signer,
    registry: Seq<ProductionChainView>,
)
    requires
        !has_endpoint(registry, LOCAL_NODE_URL@),
    ensures
        ExtrinsicOptsView::<Balance, Signer>::initial(signer).chain_and_endpoint(registry) == (
            ChainView::Custom,
            LOCAL_NODE_URL@,
        ),
{
    lemma_chain_with_endpoint(registry, LOCAL_NODE_URL@);
}

} // verus!
