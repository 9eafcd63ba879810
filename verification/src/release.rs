//! Published releases: decoding feed entries and choosing the update.

use vstd::prelude::*;
use crate::error::UpdateError;
use crate::text::same_text;
use crate::version::{
    Version, VersionModel, is_newer, lemma_precedence_chains, lemma_precedence_flip,
    lemma_precedence_reflexive, parsed_version, version_precedence,
};

verus! {

/// A downloadable file attached to a release.
#[derive(Debug)]
pub struct ReleaseAsset {
    pub name: String,
    pub browser_download_url: String,
}

/// A feed entry as published: a tag and the attached files.
#[derive(Debug)]
pub struct Release {
    pub tag_name: String,
    pub assets: Vec<ReleaseAsset>,
}

/// A feed entry whose tag reads as a version.
#[derive(Debug)]
pub struct VersionedRelease {
    pub version: Version,
    pub assets: Vec<ReleaseAsset>,
}

/// A release that can be installed: its version and the one file to fetch.
#[derive(Debug)]
pub struct ReleaseCandidate {
    pub version: Version,
    pub asset_name: String,
    pub asset_url: String,
}

/// Mathematical value of a [`ReleaseAsset`].
pub struct AssetModel {
    pub name: Seq<char>,
    pub url: Seq<char>,
}

/// Mathematical value of a [`Release`].
pub struct FeedEntryModel {
    pub tag: Seq<char>,
    pub assets: Seq<AssetModel>,
}

/// Mathematical value of a [`VersionedRelease`].
pub struct ReleaseModel {
    pub version: VersionModel,
    pub assets: Seq<AssetModel>,
}

/// Mathematical value of a [`ReleaseCandidate`].
pub struct CandidateModel {
    pub version: VersionModel,
    pub asset_name: Seq<char>,
    pub asset_url: Seq<char>,
}

impl View for ReleaseAsset {
    type V = AssetModel;

    open spec fn view(&self) -> AssetModel {
        AssetModel { name: self.name@, url: self.browser_download_url@ }
    }
}

/// The models of a run of assets, in order.
pub open spec fn asset_models(assets: Seq<ReleaseAsset>) -> Seq<AssetModel> {
    Seq::new(assets.len(), |i: int| assets[i]@)
}

impl View for Release {
    type V = FeedEntryModel;

    open spec fn view(&self) -> FeedEntryModel {
        FeedEntryModel { tag: self.tag_name@, assets: asset_models(self.assets@) }
    }
}

impl View for VersionedRelease {
    type V = ReleaseModel;

    open spec fn view(&self) -> ReleaseModel {
        ReleaseModel { version: self.version@, assets: asset_models(self.assets@) }
    }
}

impl Clone for ReleaseCandidate {
    fn clone(&self) -> (r: Self)
        ensures
            r@ == self@,
    {
        ReleaseCandidate {
            version: self.version.clone(),
            asset_name: self.asset_name.clone(),
            asset_url: self.asset_url.clone(),
        }
    }
}

impl View for ReleaseCandidate {
    type V = CandidateModel;

    open spec fn view(&self) -> CandidateModel {
        CandidateModel {
            version: self.version@,
            asset_name: self.asset_name@,
            asset_url: self.asset_url@,
        }
    }
}

/// The models of a run of feed entries, in order.
pub open spec fn feed_models(feed: Seq<Release>) -> Seq<FeedEntryModel> {
    Seq::new(feed.len(), |i: int| feed[i]@)
}

/// The models of a run of releases, in order.
pub open spec fn release_models(releases: Seq<VersionedRelease>) -> Seq<ReleaseModel> {
    Seq::new(releases.len(), |i: int| releases[i]@)
}

/// The version text of a tag: the tag without its leading marker, which is
/// its first character. An empty tag has none.
pub open spec fn tag_version_text(tag: Seq<char>) -> Option<Seq<char>> {
    if tag.len() == 0 {
        None
    } else {
        Some(tag.subrange(1, tag.len() as int))
    }
}

/// The release that a feed entry decodes to: its tag, stripped of the leading
/// marker, read as a version, with the entry's assets. An entry with an empty
/// tag, or one whose tag does not read as a version, decodes to nothing.
pub open spec fn decoded(entry: FeedEntryModel) -> Option<ReleaseModel> {
    match tag_version_text(entry.tag) {
        None => None,
        Some(text) => match parsed_version(text) {
            None => None,
            Some(version) => Some(ReleaseModel { version, assets: entry.assets }),
        },
    }
}

/// Whether some asset is called `name`.
pub open spec fn has_asset(assets: Seq<AssetModel>, name: Seq<char>) -> bool {
    exists|i: int| 0 <= i < assets.len() && (#[trigger] assets[i]).name == name
}

/// Whether position `i` holds the first asset called `name`.
pub open spec fn is_first_asset(assets: Seq<AssetModel>, name: Seq<char>, i: int) -> bool {
    &&& 0 <= i < assets.len()
    &&& assets[i].name == name
    &&& forall|j: int| 0 <= j < i ==> (#[trigger] assets[j]).name != name
}

impl VersionedRelease {
    /// Decodes a feed entry. Fails with `DecodeFailure` exactly where the
    /// entry decodes to nothing.
    pub fn try_from(value: Release) -> (r: Result<VersionedRelease, UpdateError>)
        ensures
            match r {
                Ok(release) => decoded(value@) == Some(release@),
                Err(e) => decoded(value@) is None && e == UpdateError::DecodeFailure,
            },
    {
        let tag = value.tag_name.as_str();
        let n = tag.unicode_len();
        if n == 0 {
            return Err(UpdateError::DecodeFailure);
        }
        match Version::parse(tag.substring_char(1, n)) {
            Some(version) => Ok(VersionedRelease { version, assets: value.assets }),
            None => Err(UpdateError::DecodeFailure),
        }
    }

    /// The position of the first asset called `name`, if there is one.
    pub fn platform_asset(&self, name: &str) -> (r: Option<usize>)
        ensures
            match r {
                Some(i) => is_first_asset(self@.assets, name@, i as int),
                None => !has_asset(self@.assets, name@),
            },
    {
        let mut i: usize = 0;
        while i < self.assets.len()
            invariant
                i <= self.assets.len(),
                forall|j: int| 0 <= j < i ==> self@.assets[j].name != name@,
            decreases self.assets.len() - i,
        {
            if same_text(self.assets[i].name.as_str(), name) {
                return Some(i);
            }
            i = i + 1;
        }
        None
    }
}

/// [`decoded`] as a function value.
pub open spec fn decoder() -> spec_fn(FeedEntryModel) -> Option<ReleaseModel> {
    |entry: FeedEntryModel| decoded(entry)
}

/// The releases of a feed: those of the entries that decode, in feed order.
/// Entries that do not decode are left out.
pub open spec fn decoded_feed(feed: Seq<FeedEntryModel>) -> Seq<ReleaseModel> {
    feed.filter_map(decoder())
}

/// Decodes a feed, skipping the entries that do not decode.
pub fn versioned_releases(feed: Vec<Release>) -> (r: Vec<VersionedRelease>)
    ensures
        release_models(r@) == decoded_feed(feed_models(feed@)),
{
    let ghost all = feed_models(feed@);
    let mut out: Vec<VersionedRelease> = Vec::new();
    for entry in it: feed
        invariant
            it.seq() == feed@,
            all == feed_models(feed@),
            release_models(out@) == decoded_feed(all.take(it.index())),
    {
        proof {
            all.lemma_filter_map_take_succ(decoder(), it.index());
        }
        match VersionedRelease::try_from(entry) {
            Ok(release) => {
                out.push(release);
            },
            Err(_) => {},
        }
    }
    assert(all.take(all.len() as int) == all);
    out
}

/// Whether a release is an update that this platform can install: its
/// version is strictly above `current` and one of its assets is called `name`.
pub open spec fn eligible(release: ReleaseModel, current: VersionModel, name: Seq<char>) -> bool {
    &&& version_precedence(release.version, current) is Higher
    &&& has_asset(release.assets, name)
}

/// The candidate that a release with an asset called `name` gives: its
/// version and the address of its first asset of that name.
pub open spec fn candidate_of(release: ReleaseModel, name: Seq<char>) -> CandidateModel {
    let i = choose|i: int| is_first_asset(release.assets, name, i);
    CandidateModel { version: release.version, asset_name: name, asset_url: release.assets[i].url }
}

/// The candidate that a release gives if it is eligible.
pub open spec fn candidate_for(
    release: ReleaseModel,
    current: VersionModel,
    name: Seq<char>,
) -> Option<CandidateModel> {
    if eligible(release, current, name) {
        Some(candidate_of(release, name))
    } else {
        None
    }
}

/// [`candidate_for`] as a function value.
pub open spec fn retainer(current: VersionModel, name: Seq<char>) -> spec_fn(
    ReleaseModel,
) -> Option<CandidateModel> {
    |release: ReleaseModel| candidate_for(release, current, name)
}

/// The candidates retained from `releases`: those of the eligible releases,
/// in feed order.
pub open spec fn retained(
    releases: Seq<ReleaseModel>,
    current: VersionModel,
    name: Seq<char>,
) -> Seq<CandidateModel> {
    releases.filter_map(retainer(current, name))
}

/// The models of a run of candidates, in order.
pub open spec fn candidate_models(candidates: Seq<ReleaseCandidate>) -> Seq<CandidateModel> {
    Seq::new(candidates.len(), |i: int| candidates[i]@)
}

/// Whether position `k` holds the highest candidate: none has a higher
/// version, and every one before it has a lower one.
pub open spec fn is_highest(candidates: Seq<CandidateModel>, k: int) -> bool {
    &&& 0 <= k < candidates.len()
    &&& forall|j: int|
        0 <= j < candidates.len() ==> !(version_precedence(
            (#[trigger] candidates[j]).version,
            candidates[k].version,
        ) is Higher)
    &&& forall|j: int|
        0 <= j < k ==> version_precedence((#[trigger] candidates[j]).version, candidates[k].version)
            is Lower
}

/// The candidate of the highest version, the earliest of them where several
/// share it; nothing where there is no candidate.
pub open spec fn highest(candidates: Seq<CandidateModel>) -> Option<CandidateModel> {
    if exists|k: int| is_highest(candidates, k) {
        Some(candidates[choose|k: int| is_highest(candidates, k)])
    } else {
        None
    }
}

/// The release to install from `releases`: the highest of the candidates
/// retained, or nothing where no release is eligible.
pub open spec fn selection(
    releases: Seq<ReleaseModel>,
    current: VersionModel,
    name: Seq<char>,
) -> Option<CandidateModel> {
    highest(retained(releases, current, name))
}

/// At most one position holds the first asset of a name.
pub proof fn lemma_first_asset_unique(assets: Seq<AssetModel>, name: Seq<char>, i: int, j: int)
    requires
        is_first_asset(assets, name, i),
        is_first_asset(assets, name, j),
    ensures
        i == j,
{
}

/// At most one position holds the highest candidate.
pub proof fn lemma_highest_unique(candidates: Seq<CandidateModel>, k1: int, k2: int)
    requires
        is_highest(candidates, k1),
        is_highest(candidates, k2),
    ensures
        k1 == k2,
{
    lemma_precedence_flip(candidates[k1].version, candidates[k2].version);
}

/// Among the first `n` candidates, where there is one, one is the highest.
pub proof fn lemma_highest_exists(candidates: Seq<CandidateModel>, n: int) -> (k: int)
    requires
        0 < n <= candidates.len(),
    ensures
        is_highest(candidates.take(n), k),
    decreases n,
{
    let seen = candidates.take(n - 1);
    let next = candidates.take(n);
    let last = candidates[n - 1];
    lemma_precedence_reflexive(last.version);
    if n == 1 {
        0
    } else {
        let k = lemma_highest_exists(candidates, n - 1);
        let top = seen[k].version;
        if version_precedence(last.version, top) is Higher {
            lemma_precedence_flip(last.version, top);
            assert forall|j: int| 0 <= j < n - 1 implies version_precedence(
                (#[trigger] next[j]).version,
                last.version,
            ) is Lower by {
                assert(!(version_precedence(seen[j].version, top) is Higher));
                lemma_precedence_chains(next[j].version, top, last.version);
            }
            n - 1
        } else {
            assert forall|j: int| 0 <= j < n implies !(version_precedence(
                (#[trigger] next[j]).version,
                next[k].version,
            ) is Higher) by {
                if j < n - 1 {
                    assert(!(version_precedence(seen[j].version, top) is Higher));
                }
            }
            k
        }
    }
}

/// What [`highest`] returns, in full: nothing exactly where there is no
/// candidate; otherwise one of the candidates, and none has a higher version.
pub proof fn lemma_highest_maximal(candidates: Seq<CandidateModel>)
    ensures
        highest(candidates) is None <==> candidates.len() == 0,
        highest(candidates) matches Some(top) ==> {
            &&& candidates.contains(top)
            &&& forall|j: int|
                0 <= j < candidates.len() ==> !(version_precedence(
                    (#[trigger] candidates[j]).version,
                    top.version,
                ) is Higher)
        },
{
    if candidates.len() > 0 {
        lemma_highest_exists(candidates, candidates.len() as int);
        assert(candidates.take(candidates.len() as int) == candidates);
    }
}

/// What is retained, in full: every retained candidate is the candidate of
/// an eligible release, so its version is above the running one and its
/// asset is the platform's; and every eligible release has its candidate
/// retained.
pub proof fn lemma_retained(releases: Seq<ReleaseModel>, current: VersionModel, name: Seq<char>)
    ensures
        forall|c: CandidateModel| #[trigger]
            retained(releases, current, name).contains(c) ==> {
                &&& version_precedence(c.version, current) is Higher
                &&& c.asset_name == name
                &&& exists|i: int|
                    0 <= i < releases.len() && eligible(#[trigger] releases[i], current, name) && c
                        == candidate_of(releases[i], name)
            },
        forall|i: int|
            0 <= i < releases.len() && eligible(#[trigger] releases[i], current, name)
                ==> retained(releases, current, name).contains(candidate_of(releases[i], name)),
    decreases releases.len(),
{
    let f = retainer(current, name);
    let all = retained(releases, current, name);
    assert forall|c: CandidateModel| #[trigger] all.contains(c) implies {
        &&& version_precedence(c.version, current) is Higher
        &&& c.asset_name == name
        &&& exists|i: int|
            0 <= i < releases.len() && eligible(#[trigger] releases[i], current, name) && c
                == candidate_of(releases[i], name)
    } by {
        releases.lemma_filter_map_contains(f, c);
        let t = choose|t: ReleaseModel| #[trigger] releases.contains(t) && f(t) == Some(c);
        let i = choose|i: int| 0 <= i < releases.len() && releases[i] == t;
        assert(eligible(releases[i], current, name));
    }
    if releases.len() > 0 {
        let rest = releases.drop_last();
        let last = releases.last();
        lemma_retained(rest, current, name);
        let kept = retained(rest, current, name);
        assert forall|i: int|
            0 <= i < releases.len() && eligible(
                #[trigger] releases[i],
                current,
                name,
            ) implies all.contains(candidate_of(releases[i], name)) by {
            let c = candidate_of(releases[i], name);
            if i < releases.len() - 1 {
                assert(rest[i] == releases[i]);
                assert(kept.contains(c));
                let at = choose|at: int| 0 <= at < kept.len() && kept[at] == c;
                assert(all[at] == c);
            } else {
                assert(f(last) == Some(c));
                assert(all[all.len() - 1] == c);
            }
        }
    }
}

/// What [`selection`] returns, in full. Where no release is eligible it
/// returns nothing. Otherwise it returns a candidate for this platform whose
/// version is above the running one, taken from an eligible release, and no
/// eligible release has a higher version.
pub proof fn lemma_selection_maximal(
    releases: Seq<ReleaseModel>,
    current: VersionModel,
    name: Seq<char>,
)
    ensures
        selection(releases, current, name) is None <==> forall|j: int|
            0 <= j < releases.len() ==> !eligible(#[trigger] releases[j], current, name),
        selection(releases, current, name) matches Some(c) ==> {
            &&& c.asset_name == name
            &&& version_precedence(c.version, current) is Higher
            &&& exists|k: int|
                0 <= k < releases.len() && eligible(#[trigger] releases[k], current, name) && c
                    == candidate_of(releases[k], name)
            &&& forall|j: int|
                0 <= j < releases.len() && eligible(#[trigger] releases[j], current, name)
                    ==> !(version_precedence(releases[j].version, c.version) is Higher)
        },
{
    let all = retained(releases, current, name);
    lemma_retained(releases, current, name);
    lemma_highest_maximal(all);
    if all.len() > 0 {
    }
    if let Some(c) = selection(releases, current, name) {
        assert forall|j: int|
            0 <= j < releases.len() && eligible(
                #[trigger] releases[j],
                current,
                name,
            ) implies !(version_precedence(releases[j].version, c.version) is Higher) by {
            let other = candidate_of(releases[j], name);
            assert(all.contains(other));
            let at = choose|at: int| 0 <= at < all.len() && all[at] == other;
            assert(!(version_precedence(all[at].version, c.version) is Higher));
        }
    } else {
        assert forall|j: int| 0 <= j < releases.len() implies !eligible(
            #[trigger] releases[j],
            current,
            name,
        ) by {
            if eligible(releases[j], current, name) {
            }
        }
    }
}

/// Whether no two eligible releases share a version, up to build metadata.
pub open spec fn distinct_versions(
    releases: Seq<ReleaseModel>,
    current: VersionModel,
    name: Seq<char>,
) -> bool {
    forall|i: int, j: int|
        0 <= i < releases.len() && 0 <= j < releases.len() && i != j && eligible(
            #[trigger] releases[i],
            current,
            name,
        ) && eligible(#[trigger] releases[j], current, name) ==> !(version_precedence(
            releases[i].version,
            releases[j].version,
        ) is Same)
}

/// Where no two eligible releases share a version, the selected candidate is
/// strictly above every other eligible release: the release it is taken from
/// is the only one that is not lower.
pub proof fn lemma_selection_strictly_maximal(
    releases: Seq<ReleaseModel>,
    current: VersionModel,
    name: Seq<char>,
)
    requires
        distinct_versions(releases, current, name),
    ensures
        selection(releases, current, name) matches Some(c) ==> exists|k: int|
            {
                &&& 0 <= k < releases.len()
                &&& eligible(#[trigger] releases[k], current, name)
                &&& c == candidate_of(releases[k], name)
                &&& forall|j: int|
                    0 <= j < releases.len() && j != k && eligible(
                        #[trigger] releases[j],
                        current,
                        name,
                    ) ==> version_precedence(releases[j].version, c.version) is Lower
            },
{
    lemma_selection_maximal(releases, current, name);
    if let Some(c) = selection(releases, current, name) {
        let k = choose|k: int|
            0 <= k < releases.len() && eligible(#[trigger] releases[k], current, name) && c
                == candidate_of(releases[k], name);
        assert(releases[k].version == c.version);
    }
}

/// The selection does not depend on the order of the releases: two feeds
/// with the same releases, in any order, give the same selection, where no
/// two eligible releases share a version.
pub proof fn lemma_selection_order_independent(
    a: Seq<ReleaseModel>,
    b: Seq<ReleaseModel>,
    current: VersionModel,
    name: Seq<char>,
)
    requires
        a.to_multiset() == b.to_multiset(),
        distinct_versions(a, current, name),
    ensures
        selection(a, current, name) == selection(b, current, name),
{
    a.to_multiset_ensures();
    b.to_multiset_ensures();
    lemma_selection_maximal(a, current, name);
    lemma_selection_maximal(b, current, name);
    assert forall|j: int| 0 <= j < b.len() implies a.contains(#[trigger] b[j]) by {
        assert(a.to_multiset().count(b[j]) > 0);
    }
    assert forall|j: int| 0 <= j < a.len() implies b.contains(#[trigger] a[j]) by {
        assert(b.to_multiset().count(a[j]) > 0);
    }
    match selection(a, current, name) {
        Some(ca) => {
            let k = choose|k: int|
                0 <= k < a.len() && eligible(#[trigger] a[k], current, name) && ca
                    == candidate_of(a[k], name);
            assert(b.contains(a[k]));
            let m = choose|m: int| 0 <= m < b.len() && b[m] == a[k];
            assert(eligible(b[m], current, name));
            let cb = selection(b, current, name)->0;
            let top = choose|n: int|
                0 <= n < b.len() && eligible(#[trigger] b[n], current, name) && cb
                    == candidate_of(b[n], name);
            assert(a.contains(b[top]));
            let back = choose|n: int| 0 <= n < a.len() && a[n] == b[top];
            assert(eligible(a[back], current, name));
            lemma_precedence_flip(a[k].version, b[top].version);
            assert(!(version_precedence(b[m].version, cb.version) is Higher));
            assert(!(version_precedence(a[back].version, ca.version) is Higher));
            assert(back == k);
        },
        None => {
            assert forall|j: int| 0 <= j < b.len() implies !eligible(
                #[trigger] b[j],
                current,
                name,
            ) by {
                let n = choose|n: int| 0 <= n < a.len() && a[n] == b[j];
                assert(!eligible(a[n], current, name));
            }
        },
    }
}

/// The release that holds exactly what a candidate names.
pub open spec fn release_of(c: CandidateModel) -> ReleaseModel {
    ReleaseModel {
        version: c.version,
        assets: seq![AssetModel { name: c.asset_name, url: c.asset_url }],
    }
}

/// Selecting again among what was selected changes nothing: the selected
/// candidate is the highest of itself alone, and a feed that holds only the
/// release it names selects it again.
pub proof fn lemma_selection_idempotent(
    releases: Seq<ReleaseModel>,
    current: VersionModel,
    name: Seq<char>,
)
    ensures
        selection(releases, current, name) matches Some(c) ==> {
            &&& highest(seq![c]) == Some(c)
            &&& selection(seq![release_of(c)], current, name) == Some(c)
        },
{
    lemma_selection_maximal(releases, current, name);
    if let Some(c) = selection(releases, current, name) {
        let only = release_of(c);
        lemma_precedence_reflexive(c.version);
        let first = choose|i: int| is_first_asset(only.assets, name, i);
        lemma_first_asset_unique(only.assets, name, 0, first);
        Seq::lemma_filter_map_singleton(only, retainer(current, name));
        assert(retained(seq![only], current, name) == seq![c]);
        assert(is_highest(seq![c], 0));
        let chosen = choose|k: int| is_highest(seq![c], k);
        lemma_highest_unique(seq![c], 0, chosen);
    }
}

impl VersionedRelease {
    /// The candidate that this release gives: its version and the address of
    /// its first asset called `name`, if it is above `current` and has such
    /// an asset; nothing otherwise.
    pub fn candidate(&self, current: &Version, name: &str) -> (r: Option<ReleaseCandidate>)
        ensures
            match r {
                Some(c) => candidate_for(self@, current@, name@) == Some(c@),
                None => candidate_for(self@, current@, name@) is None,
            },
    {
        if !is_newer(&self.version, current) {
            return None;
        }
        match self.platform_asset(name) {
            None => None,
            Some(a) => {
                proof {
                    let first = choose|i: int| is_first_asset(self@.assets, name@, i);
                    lemma_first_asset_unique(self@.assets, name@, a as int, first);
                }
                Some(
                    ReleaseCandidate {
                        version: self.version.clone(),
                        asset_name: name.to_owned(),
                        asset_url: self.assets[a].browser_download_url.clone(),
                    },
                )
            },
        }
    }
}

/// Picks the candidate of the highest version, the earliest of them where
/// several share it; nothing where there is no candidate.
pub fn select_highest(candidates: &Vec<ReleaseCandidate>) -> (r: Option<ReleaseCandidate>)
    ensures
        match r {
            Some(c) => highest(candidate_models(candidates@)) == Some(c@),
            None => highest(candidate_models(candidates@)) is None,
        },
{
    let ghost all = candidate_models(candidates@);
    if candidates.len() == 0 {
        return None;
    }
    let mut best: usize = 0;
    let mut i: usize = 1;
    proof {
        lemma_precedence_reflexive(all[0].version);
    }
    while i < candidates.len()
        invariant
            0 < i <= candidates.len(),
            all == candidate_models(candidates@),
            best < i,
            is_highest(all.take(i as int), best as int),
        decreases candidates.len() - i,
    {
        let ghost seen = all.take(i as int);
        let ghost next = all.take(i + 1);
        if is_newer(&candidates[i].version, &candidates[best].version) {
            proof {
                let top = seen[best as int].version;
                let last = next[i as int].version;
                lemma_precedence_flip(last, top);
                lemma_precedence_reflexive(last);
                assert forall|j: int| 0 <= j < i implies version_precedence(
                    (#[trigger] next[j]).version,
                    last,
                ) is Lower by {
                    assert(!(version_precedence(seen[j].version, top) is Higher));
                    lemma_precedence_chains(next[j].version, top, last);
                }
            }
            best = i;
        } else {
            assert forall|j: int| 0 <= j < i + 1 implies !(version_precedence(
                (#[trigger] next[j]).version,
                next[best as int].version,
            ) is Higher) by {
                if j < i {
                    assert(!(version_precedence(seen[j].version, seen[best as int].version)
                        is Higher));
                }
            }
        }
        i = i + 1;
    }
    assert(all.take(all.len() as int) == all);
    proof {
        let chosen = choose|k: int| is_highest(all, k);
        lemma_highest_unique(all, best as int, chosen);
    }
    Some(candidates[best].clone())
}

/// Chooses the release to install.
#[derive(Debug)]
pub struct ReleaseSelector {
    /// The version that is running.
    pub current: Version,
    /// The name of the asset built for this platform.
    pub asset_name: String,
}

impl ReleaseSelector {
    /// The candidates retained from `releases`: one for each release whose
    /// version is above the running one and that has an asset for this
    /// platform, in feed order.
    pub fn candidates(&self, releases: &Vec<VersionedRelease>) -> (r: Vec<ReleaseCandidate>)
        ensures
            candidate_models(r@) == retained(
                release_models(releases@),
                self.current@,
                self.asset_name@,
            ),
    {
        let ghost all = release_models(releases@);
        let ghost f = retainer(self.current@, self.asset_name@);
        let mut out: Vec<ReleaseCandidate> = Vec::new();
        let mut i: usize = 0;
        while i < releases.len()
            invariant
                i <= releases.len(),
                all == release_models(releases@),
                f == retainer(self.current@, self.asset_name@),
                candidate_models(out@) == all.take(i as int).filter_map(f),
            decreases releases.len() - i,
        {
            proof {
                all.lemma_filter_map_take_succ(f, i as int);
            }
            match releases[i].candidate(&self.current, self.asset_name.as_str()) {
                Some(candidate) => {
                    out.push(candidate);
                },
                None => {},
            }
            i = i + 1;
        }
        assert(all.take(all.len() as int) == all);
        out
    }

    /// Chooses the release to install from `releases`: nothing where none is
    /// eligible, else the candidate of the highest version among those
    /// retained.
    pub fn select(&self, releases: &Vec<VersionedRelease>) -> (r: Option<ReleaseCandidate>)
        ensures
            match r {
                Some(c) => selection(release_models(releases@), self.current@, self.asset_name@)
                    == Some(c@),
                None => selection(release_models(releases@), self.current@, self.asset_name@)
                    is None,
            },
    {
        let retained = self.candidates(releases);
        select_highest(&retained)
    }
}

} // verus!
