use vstd::prelude::*;

use crate::llm::opt_view;
use crate::text::{
    chars_of, concat_str, decimal_seq, is_ascii_alnum, is_ascii_alphanumeric, is_blank,
    join_seq, lemma_decimal_injective, lemma_join_extend_last, lemma_join_nonempty,
    lemma_join_push, lemma_runs_nonempty, owned, runs_seq, str_eq, string_from_chars,
    to_ascii_lowercase, ascii_lower, trim, trim_end_char, trim_end_char_seq, trim_seq,
    u128_to_text, split_runs, vecs_view, lower_seq, lemma_lower_alnum, lemma_decimal_len,
};

verus! {

broadcast use vstd::string::group_string_axioms;

/// When model-requested tools may run.
#[derive(Clone, Copy, Debug, PartialEq, Eq, Structural)]
pub enum ApprovalPolicy {
    /// Run allowlisted tools automatically.
    Auto,
    /// Ask before running tools in interactive chat; deny tools elsewhere.
    OnRequest,
}

/// How much reasoning to ask the provider for.
#[derive(Clone, Copy, Debug, PartialEq, Eq, Structural)]
pub enum ReasoningEffort {
    /// Send no provider-specific reasoning controls.
    Auto,
    /// Disable thinking where the provider supports it.
    No,
    /// Low reasoning effort.
    Low,
    /// Medium reasoning effort.
    Medium,
    /// High reasoning effort.
    High,
}

/// Context-window settings kept in the configuration file.
#[derive(Clone, Copy, Debug)]
pub struct ContextConfig {
    pub token_threshold: usize,
    pub recent_messages: usize,
}

/// Reasoning settings kept in the configuration file.
#[derive(Clone, Copy, Debug)]
pub struct ReasoningConfig {
    pub effort: ReasoningEffort,
}

/// One configured model provider.
#[derive(Debug)]
pub struct ProviderProfile {
    pub id: String,
    pub name: String,
    pub base_url: String,
    pub model: String,
    pub api_key_env: Option<String>,
    pub api_key: Option<String>,
    pub protocol: String,
}

/// The whole configuration: the providers, which one is active, and the
/// approval, context and reasoning settings.
#[derive(Debug)]
pub struct RobConfig {
    pub active_profile_id: String,
    pub profiles: Vec<ProviderProfile>,
    pub tool_approval: ApprovalPolicy,
    pub context: ContextConfig,
    pub reasoning: ReasoningConfig,
}

/// Why a configuration request was refused.
#[derive(Debug)]
pub enum ConfigError {
    /// No provider profile is configured.
    NoProvider,
    /// A profile with this name exists already.
    DuplicateName(String),
    /// No profile has this name or id.
    ProfileNotFound(String),
    /// The environment variable that should hold the API key is not set.
    MissingEnv(String),
    /// The profile with this name has no usable API key.
    NoApiKey(String),
}

/// A provider profile as text.
pub struct ProfileView {
    pub id: Seq<char>,
    pub name: Seq<char>,
    pub base_url: Seq<char>,
    pub model: Seq<char>,
    pub api_key_env: Option<Seq<char>>,
    pub api_key: Option<Seq<char>>,
    pub protocol: Seq<char>,
}

impl View for ProviderProfile {
    type V = ProfileView;

    open spec fn view(&self) -> ProfileView {
        ProfileView {
            id: self.id@,
            name: self.name@,
            base_url: self.base_url@,
            model: self.model@,
            api_key_env: opt_view(self.api_key_env),
            api_key: opt_view(self.api_key),
            protocol: self.protocol@,
        }
    }
}

/// The views of a sequence of profiles.
pub open spec fn profiles_view(ps: Seq<ProviderProfile>) -> Seq<ProfileView> {
    ps.map_values(|p: ProviderProfile| p@)
}

/// The position of the first profile with this id, or the length when none has it.
pub open spec fn index_of_id(ps: Seq<ProfileView>, id: Seq<char>) -> int
    decreases ps.len(),
{
    if ps.len() == 0 {
        0
    } else if ps[0].id == id {
        0
    } else {
        1 + index_of_id(ps.drop_first(), id)
    }
}

/// The position of the first profile with this name, or the length when none has it.
pub open spec fn index_of_name(ps: Seq<ProfileView>, name: Seq<char>) -> int
    decreases ps.len(),
{
    if ps.len() == 0 {
        0
    } else if ps[0].name == name {
        0
    } else {
        1 + index_of_name(ps.drop_first(), name)
    }
}

/// Whether the profile is the one that `r` names, by name or by id.
pub open spec fn ref_matches(p: ProfileView, r: Seq<char>) -> bool {
    p.name == r || p.id == r
}

/// The position of the first profile with this name or this id, or the length
/// when none has it.
pub open spec fn index_of_ref(ps: Seq<ProfileView>, r: Seq<char>) -> int
    decreases ps.len(),
{
    if ps.len() == 0 {
        0
    } else if ref_matches(ps[0], r) {
        0
    } else {
        1 + index_of_ref(ps.drop_first(), r)
    }
}

/// Whether some profile has this name.
pub open spec fn name_taken(ps: Seq<ProfileView>, name: Seq<char>) -> bool {
    exists|i: int| 0 <= i < ps.len() && #[trigger] ps[i].name == name
}

/// No two profiles share a name.
pub open spec fn names_unique(ps: Seq<ProfileView>) -> bool {
    forall|i: int, j: int| 0 <= i < j < ps.len() ==> #[trigger] ps[i].name != #[trigger] ps[j].name
}

/// The profiles without those named `name`, in order.
pub open spec fn without_name(ps: Seq<ProfileView>, name: Seq<char>) -> Seq<ProfileView>
    decreases ps.len(),
{
    if ps.len() == 0 {
        seq![]
    } else if ps.last().name == name {
        without_name(ps.drop_last(), name)
    } else {
        without_name(ps.drop_last(), name).push(ps.last())
    }
}

/// Dropping the profiles named `name` keeps every other profile, in order:
/// the result is the list filtered by a different name, so a profile whose
/// name merely starts or ends like `name` stays.
pub proof fn lemma_without_name_keeps_others(ps: Seq<ProfileView>, name: Seq<char>)
    ensures
        without_name(ps, name) == ps.filter(|p: ProfileView| p.name != name),
        forall|i: int|
            0 <= i < ps.len() && ps[i].name != name ==> without_name(ps, name).contains(
                #[trigger] ps[i],
            ),
        forall|i: int|
            0 <= i < without_name(ps, name).len() ==> (#[trigger] without_name(ps, name)[i]).name
                != name,
    decreases ps.len(),
{
    reveal(Seq::filter);
    broadcast use vstd::seq_lib::group_filter_ensures;
    if ps.len() > 0 {
        lemma_without_name_keeps_others(ps.drop_last(), name);
    }
    let pred = |p: ProfileView| p.name != name;
    assert forall|i: int| 0 <= i < ps.len() && ps[i].name != name implies without_name(
        ps,
        name,
    ).contains(#[trigger] ps[i]) by {
        assert(pred(ps[i]));
        ps.lemma_filter_contains(pred, i);
    }
    assert forall|i: int| 0 <= i < without_name(ps, name).len() implies (#[trigger] without_name(
        ps,
        name,
    )[i]).name != name by {
        ps.lemma_filter_pred(pred, i);
    }
}

proof fn lemma_index_of_id(ps: Seq<ProfileView>, id: Seq<char>)
    ensures
        0 <= index_of_id(ps, id) <= ps.len(),
        index_of_id(ps, id) < ps.len() ==> ps[index_of_id(ps, id)].id == id,
        forall|k: int| 0 <= k < index_of_id(ps, id) ==> #[trigger] ps[k].id != id,
    decreases ps.len(),
{
    if ps.len() > 0 && ps[0].id != id {
        lemma_index_of_id(ps.drop_first(), id);
        assert forall|k: int| 0 <= k < index_of_id(ps, id) implies #[trigger] ps[k].id != id by {
            if k > 0 {
                assert(ps[k] == ps.drop_first()[k - 1]);
            }
        }
    }
}

proof fn lemma_index_of_name(ps: Seq<ProfileView>, name: Seq<char>)
    ensures
        0 <= index_of_name(ps, name) <= ps.len(),
        index_of_name(ps, name) < ps.len() ==> ps[index_of_name(ps, name)].name == name,
        forall|k: int| 0 <= k < index_of_name(ps, name) ==> #[trigger] ps[k].name != name,
        (index_of_name(ps, name) < ps.len()) == name_taken(ps, name),
    decreases ps.len(),
{
    if ps.len() > 0 && ps[0].name != name {
        lemma_index_of_name(ps.drop_first(), name);
        assert forall|k: int| 0 <= k < index_of_name(ps, name) implies #[trigger] ps[k].name
            != name by {
            if k > 0 {
                assert(ps[k] == ps.drop_first()[k - 1]);
            }
        }
        if name_taken(ps, name) {
            let i = choose|i: int| 0 <= i < ps.len() && #[trigger] ps[i].name == name;
            assert(ps.drop_first()[i - 1].name == name);
        }
        if name_taken(ps.drop_first(), name) {
            let i = choose|i: int| 0 <= i < ps.len() - 1 && #[trigger] ps.drop_first()[i].name == name;
            assert(ps[i + 1].name == name);
        }
    } else if ps.len() > 0 {
        assert(ps[0].name == name);
    }
}

proof fn lemma_index_of_ref(ps: Seq<ProfileView>, r: Seq<char>)
    ensures
        0 <= index_of_ref(ps, r) <= ps.len(),
        index_of_ref(ps, r) < ps.len() ==> ref_matches(ps[index_of_ref(ps, r)], r),
        forall|k: int| 0 <= k < index_of_ref(ps, r) ==> !ref_matches(#[trigger] ps[k], r),
    decreases ps.len(),
{
    if ps.len() > 0 && !ref_matches(ps[0], r) {
        lemma_index_of_ref(ps.drop_first(), r);
        assert forall|k: int| 0 <= k < index_of_ref(ps, r) implies !ref_matches(
            #[trigger] ps[k],
            r,
        ) by {
            if k > 0 {
                assert(ps[k] == ps.drop_first()[k - 1]);
            }
        }
    }
}

/// Where `name` is in the profiles `ps`, found by a scan.
fn find_name(ps: &Vec<ProviderProfile>, name: &str) -> (r: usize)
    ensures
        r == index_of_name(profiles_view(ps@), name@),
{
    let ghost v = profiles_view(ps@);
    proof {
        lemma_index_of_name(v, name@);
    }
    let mut i: usize = 0;
    while i < ps.len()
        invariant
            i <= ps.len(),
            v == profiles_view(ps@),
            forall|k: int| 0 <= k < i ==> #[trigger] v[k].name != name@,
        decreases ps.len() - i,
    {
        if str_eq(ps[i].name.as_str(), name) {
            assert(v[i as int].name == name@);
            assert(i as int == index_of_name(v, name@)) by {
                lemma_index_of_name(v, name@);
                let n = index_of_name(v, name@);
                if n < i {
                    assert(v[n].name == name@);
                }
            }
            return i;
        }
        i += 1;
    }
    assert(i as int == index_of_name(v, name@)) by {
        let n = index_of_name(v, name@);
        if n < i {
            assert(v[n].name == name@);
        }
    }
    i
}

/// A copy of `p`.
fn clone_profile(p: &ProviderProfile) -> (r: ProviderProfile)
    ensures
        r@ == p@,
{
    ProviderProfile {
        id: p.id.clone(),
        name: p.name.clone(),
        base_url: p.base_url.clone(),
        model: p.model.clone(),
        api_key_env: crate::llm::clone_opt_string(&p.api_key_env),
        api_key: crate::llm::clone_opt_string(&p.api_key),
        protocol: p.protocol.clone(),
    }
}

impl Clone for ProviderProfile {
    fn clone(&self) -> (r: Self)
        ensures
            r@ == self@,
    {
        clone_profile(self)
    }
}

/// The whole configuration as plain values.
pub struct ConfigView {
    pub active_profile_id: Seq<char>,
    pub profiles: Seq<ProfileView>,
    pub tool_approval: ApprovalPolicy,
    pub context: ContextConfig,
    pub reasoning: ReasoningConfig,
}

impl View for RobConfig {
    type V = ConfigView;

    open spec fn view(&self) -> ConfigView {
        ConfigView {
            active_profile_id: self.active_profile_id@,
            profiles: profiles_view(self.profiles@),
            tool_approval: self.tool_approval,
            context: self.context,
            reasoning: self.reasoning,
        }
    }
}

/// The position of the active profile of a configuration: the one whose id
/// is the active id, or else the first one.
pub open spec fn active_index_of(c: ConfigView) -> int {
    let i = index_of_id(c.profiles, c.active_profile_id);
    if i < c.profiles.len() {
        i
    } else {
        0
    }
}

impl RobConfig {
    /// The profiles as text.
    pub open spec fn profiles_v(&self) -> Seq<ProfileView> {
        profiles_view(self.profiles@)
    }

    /// The position of the active profile: the one whose id is the active id,
    /// or else the first one.
    pub open spec fn active_index(&self) -> int {
        let i = index_of_id(self.profiles_v(), self.active_profile_id@);
        if i < self.profiles@.len() {
            i
        } else {
            0
        }
    }

    /// The active provider: the profile whose id is the active id, or else the
    /// first profile; an error when there is none.
    pub fn active_profile(&self) -> (r: Result<&ProviderProfile, ConfigError>)
        ensures
            self.profiles@.len() == 0 ==> r matches Err(ConfigError::NoProvider),
            self.profiles@.len() > 0 ==> (r matches Ok(p) && p@ == self.profiles_v()[self.active_index()]),
    {
        let ghost v = self.profiles_v();
        proof {
            lemma_index_of_id(v, self.active_profile_id@);
        }
        let mut i: usize = 0;
        while i < self.profiles.len()
            invariant
                i <= self.profiles.len(),
                v == self.profiles_v(),
                forall|k: int| 0 <= k < i ==> #[trigger] v[k].id != self.active_profile_id@,
            decreases self.profiles.len() - i,
        {
            if str_eq(self.profiles[i].id.as_str(), self.active_profile_id.as_str()) {
                assert(v[i as int].id == self.active_profile_id@);
                assert(i as int == index_of_id(v, self.active_profile_id@)) by {
                    lemma_index_of_id(v, self.active_profile_id@);
                    let n = index_of_id(v, self.active_profile_id@);
                    if n < i {
                        assert(v[n].id == self.active_profile_id@);
                    }
                }
                return Ok(&self.profiles[i]);
            }
            i += 1;
        }
        assert(index_of_id(v, self.active_profile_id@) == v.len()) by {
            let n = index_of_id(v, self.active_profile_id@);
            if n < v.len() {
                assert(v[n].id == self.active_profile_id@);
            }
        }
        if self.profiles.len() > 0 {
            Ok(&self.profiles[0])
        } else {
            Err(ConfigError::NoProvider)
        }
    }

    /// Makes `profile` the active one, in place of any profile with its name.
    pub fn set_active_profile(&mut self, profile: ProviderProfile)
        ensures
            final(self).active_profile_id@ == profile.id@,
            final(self).profiles_v() == without_name(old(self).profiles_v(), profile.name@).push(
                profile@,
            ),
            final(self).tool_approval == old(self).tool_approval,
            final(self).context == old(self).context,
            final(self).reasoning == old(self).reasoning,
            names_unique(old(self).profiles_v()) ==> names_unique(final(self).profiles_v()),
    {
        let ghost v = old(self).profiles_v();
        proof {
            lemma_without_name(v, profile.name@);
        }
        self.active_profile_id = profile.id.clone();
        let mut kept: Vec<ProviderProfile> = Vec::new();
        let mut rest: Vec<ProviderProfile> = Vec::new();
        std::mem::swap(&mut rest, &mut self.profiles);
        let n = rest.len();
        let mut i: usize = 0;
        assert(v.take(0) =~= seq![]);
        assert(profiles_view(kept@) =~= seq![]);
        assert(rest@ == old(self).profiles@);
        while i < n
            invariant
                i <= n == rest.len(),
                v == profiles_view(rest@),
                profiles_view(kept@) == without_name(v.take(i as int), profile.name@),
            decreases n - i,
        {
            assert(v.take(i + 1).drop_last() =~= v.take(i as int));
            assert(v.take(i + 1).last() == v[i as int]);
            if !str_eq(rest[i].name.as_str(), profile.name.as_str()) {
                let ghost before = kept@;
                kept.push(clone_profile(&rest[i]));
                assert(profiles_view(kept@) =~= profiles_view(before).push(v[i as int]));
            }
            i += 1;
        }
        assert(v.take(n as int) =~= v);
        let ghost pv = profile@;
        let ghost kv = profiles_view(kept@);
        kept.push(profile);
        assert(profiles_view(kept@) =~= kv.push(pv));
        self.profiles = kept;
    }

    /// Adds `profile` and makes it the active one, unless a profile with its
    /// name exists already; then nothing changes.
    pub fn add_active_profile(&mut self, profile: ProviderProfile) -> (r: Result<(), ConfigError>)
        ensures
            name_taken(old(self).profiles_v(), profile.name@) ==> {
                &&& r matches Err(ConfigError::DuplicateName(n)) && n@ == profile.name@
                &&& final(self).profiles_v() == old(self).profiles_v()
                &&& final(self).active_profile_id@ == old(self).active_profile_id@
            },
            !name_taken(old(self).profiles_v(), profile.name@) ==> {
                &&& r is Ok
                &&& final(self).profiles_v() == old(self).profiles_v().push(profile@)
                &&& final(self).active_profile_id@ == profile.id@
            },
            final(self).tool_approval == old(self).tool_approval,
            final(self).context == old(self).context,
            final(self).reasoning == old(self).reasoning,
            names_unique(old(self).profiles_v()) ==> names_unique(final(self).profiles_v()),
    {
        let ghost v = self.profiles_v();
        proof {
            lemma_index_of_name(v, profile.name@);
        }
        let k = find_name(&self.profiles, profile.name.as_str());
        if k < self.profiles.len() {
            return Err(ConfigError::DuplicateName(profile.name));
        }
        self.active_profile_id = profile.id.clone();
        let ghost pv = profile@;
        self.profiles.push(profile);
        assert(self.profiles_v() =~= v.push(pv));
        Ok(())
    }

    /// Makes `profile` the active one; a profile with its name is replaced in
    /// place and keeps its id, else `profile` is added.
    pub fn replace_active_profile(&mut self, profile: ProviderProfile)
        ensures
            ({
                let v = old(self).profiles_v();
                let k = index_of_name(v, profile.name@);
                if k < v.len() {
                    &&& final(self).profiles_v() == v.update(k, ProfileView { id: v[k].id, ..profile@ })
                    &&& final(self).active_profile_id@ == v[k].id
                } else {
                    &&& final(self).profiles_v() == v.push(profile@)
                    &&& final(self).active_profile_id@ == profile.id@
                }
            }),
            final(self).tool_approval == old(self).tool_approval,
            final(self).context == old(self).context,
            final(self).reasoning == old(self).reasoning,
            names_unique(old(self).profiles_v()) ==> names_unique(final(self).profiles_v()),
    {
        let ghost v = self.profiles_v();
        proof {
            lemma_index_of_name(v, profile.name@);
        }
        let k = find_name(&self.profiles, profile.name.as_str());
        let mut profile = profile;
        if k < self.profiles.len() {
            let existing = self.profiles.remove(k);
            profile.id = existing.id;
            self.active_profile_id = profile.id.clone();
            let ghost pv = profile@;
            self.profiles.insert(k, profile);
            assert(self.profiles_v() =~= v.update(k as int, pv));
            return;
        }
        self.active_profile_id = profile.id.clone();
        let ghost pv = profile@;
        self.profiles.push(profile);
        assert(self.profiles_v() =~= v.push(pv));
    }

    /// Makes active the first profile whose name or id is `profile_ref`;
    /// an error, and no change, when there is none.
    pub fn set_active_profile_by_ref(&mut self, profile_ref: &str) -> (r: Result<(), ConfigError>)
        ensures
            final(self).profiles_v() == old(self).profiles_v(),
            final(self).tool_approval == old(self).tool_approval,
            final(self).context == old(self).context,
            final(self).reasoning == old(self).reasoning,
            ({
                let v = old(self).profiles_v();
                let k = index_of_ref(v, profile_ref@);
                if k < v.len() {
                    r is Ok && final(self).active_profile_id@ == v[k].id
                } else {
                    &&& r matches Err(ConfigError::ProfileNotFound(n)) && n@ == profile_ref@
                    &&& final(self).active_profile_id@ == old(self).active_profile_id@
                }
            }),
    {
        let ghost v = self.profiles_v();
        let mut i: usize = 0;
        while i < self.profiles.len()
            invariant
                i <= self.profiles.len(),
                v == self.profiles_v(),
                v == old(self).profiles_v(),
                self.tool_approval == old(self).tool_approval,
                self.context == old(self).context,
                self.reasoning == old(self).reasoning,
                self.active_profile_id@ == old(self).active_profile_id@,
                forall|k: int| 0 <= k < i ==> !ref_matches(#[trigger] v[k], profile_ref@),
            decreases self.profiles.len() - i,
        {
            if str_eq(self.profiles[i].name.as_str(), profile_ref) || str_eq(
                self.profiles[i].id.as_str(),
                profile_ref,
            ) {
                assert(ref_matches(v[i as int], profile_ref@));
                assert(i as int == index_of_ref(v, profile_ref@)) by {
                    lemma_index_of_ref(v, profile_ref@);
                    let n = index_of_ref(v, profile_ref@);
                    if n < i {
                        assert(ref_matches(v[n], profile_ref@));
                    }
                }
                self.active_profile_id = self.profiles[i].id.clone();
                return Ok(());
            }
            i += 1;
        }
        assert(index_of_ref(v, profile_ref@) == v.len()) by {
            lemma_index_of_ref(v, profile_ref@);
            let n = index_of_ref(v, profile_ref@);
            if n < v.len() {
                assert(ref_matches(v[n], profile_ref@));
            }
        }
        Err(ConfigError::ProfileNotFound(owned(profile_ref)))
    }
}

/// What is left after removing the profiles named `name` keeps the order,
/// holds no profile of that name, and keeps names unique.
pub proof fn lemma_without_name(ps: Seq<ProfileView>, name: Seq<char>)
    ensures
        forall|i: int|
            0 <= i < without_name(ps, name).len() ==> #[trigger] without_name(ps, name)[i].name
                != name,
        forall|i: int|
            0 <= i < without_name(ps, name).len() ==> exists|j: int|
                0 <= j < ps.len() && ps[j] == #[trigger] without_name(ps, name)[i],
        names_unique(ps) ==> names_unique(without_name(ps, name)),
        names_unique(without_name(ps, name).push(ProfileView { name, ..ps.last() }))
            || !names_unique(ps),
    decreases ps.len(),
{
    if ps.len() > 0 {
        let p = ps.drop_last();
        lemma_without_name(p, name);
        let w = without_name(p, name);
        let r = without_name(ps, name);
        assert forall|i: int| 0 <= i < r.len() implies exists|j: int|
            0 <= j < ps.len() && ps[j] == #[trigger] r[i] by {
            if i < w.len() {
                let j = choose|j: int| 0 <= j < p.len() && p[j] == w[i];
                assert(ps[j] == r[i]);
            } else {
                assert(ps[ps.len() - 1] == r[i]);
            }
        }
        if names_unique(ps) {
            assert(names_unique(p)) by {
                assert forall|i: int, j: int| 0 <= i < j < p.len() implies #[trigger] p[i].name
                    != #[trigger] p[j].name by {
                    assert(p[i] == ps[i] && p[j] == ps[j]);
                }
            }
            assert forall|i: int, j: int| 0 <= i < j < r.len() implies #[trigger] r[i].name
                != #[trigger] r[j].name by {
                if j < w.len() {
                } else {
                    let k = choose|k: int| 0 <= k < p.len() && p[k] == w[i];
                    assert(ps[k] == p[k]);
                    assert(ps[k].name != ps[ps.len() - 1].name);
                }
            }
        }
        let q = r.push(ProfileView { name, ..ps.last() });
        assert forall|i: int, j: int| 0 <= i < j < q.len() && names_unique(r) implies
            #[trigger] q[i].name != #[trigger] q[j].name by {
            if j == q.len() - 1 {
                assert(r[i].name != name);
            } else {
                assert(q[i] == r[i] && q[j] == r[j]);
            }
        }
    } else {
        assert(without_name(ps, name) =~= seq![]);
    }
}

/// A base URL without surrounding white space and trailing slashes.
pub open spec fn normalized_url_seq(value: Seq<char>) -> Seq<char> {
    trim_end_char_seq(trim_seq(value), '/')
}

/// A base URL without surrounding white space and trailing slashes.
pub fn normalize_base_url(value: &str) -> (r: String)
    ensures
        r@ == normalized_url_seq(value@),
{
    let t = trim(value);
    trim_end_char(t.as_str(), '/')
}

/// Whether `c` is `0`-`9` or `.`.
pub open spec fn digit_or_dot(c: char) -> bool {
    ('0' <= c <= '9') || c == '.'
}

/// The non-empty dot-separated labels of a host name.
pub open spec fn host_labels(host: Seq<char>) -> Seq<Seq<char>> {
    runs_seq(host, |c: char| c == '.')
}

/// The profile name that a host suggests: an IP address as it is; else the
/// label after a leading `api` or `www` when there are three labels or more;
/// else the label before the last; else the host as it is.
pub open spec fn host_name_seq(host: Seq<char>) -> Seq<char> {
    let labels = host_labels(host);
    if forall|i: int| 0 <= i < host.len() ==> digit_or_dot(#[trigger] host[i]) {
        host
    } else if labels.len() >= 3 && (labels[0] == "api"@ || labels[0] == "www"@) {
        labels[1]
    } else if labels.len() >= 2 {
        labels[labels.len() - 2]
    } else {
        host
    }
}

/// The profile name that a host suggests.
pub fn host_profile_name(host: &str) -> (r: String)
    ensures
        r@ == host_name_seq(host@),
{
    let cs = chars_of(host);
    let mut i: usize = 0;
    while i < cs.len() && (('0' <= cs[i] && cs[i] <= '9') || cs[i] == '.')
        invariant
            i <= cs.len(),
            forall|k: int| 0 <= k < i ==> digit_or_dot(#[trigger] cs@[k]),
        decreases cs.len() - i,
    {
        i += 1;
    }
    if i == cs.len() {
        return owned(host);
    }
    assert(!digit_or_dot(cs@[i as int]));
    let labels = split_runs(&cs, '.');
    assert(vecs_view(labels@) == host_labels(host@));
    let n = labels.len();
    if n >= 3 {
        let first = string_from_chars(&labels[0]);
        assert(first@ == host_labels(host@)[0]);
        if str_eq(first.as_str(), "api") || str_eq(first.as_str(), "www") {
            let r = string_from_chars(&labels[1]);
            assert(r@ == host_labels(host@)[1]);
            return r;
        }
    }
    if n >= 2 {
        let r = string_from_chars(&labels[n - 2]);
        assert(r@ == host_labels(host@)[n - 2]);
        return r;
    }
    owned(host)
}

/// Whether `c` separates the runs of a profile name.
pub open spec fn not_alnum(c: char) -> bool {
    !is_ascii_alnum(c)
}

/// The profile name made of `raw`: its runs of ASCII letters and digits, in
/// small letters, joined by `-`; `provider` when there are none.
pub open spec fn sanitized_seq(raw: Seq<char>) -> Seq<char> {
    let j = join_seq(runs_seq(lower_seq(raw), |c: char| not_alnum(c)), "-"@);
    if j.len() == 0 {
        "provider"@
    } else {
        j
    }
}

/// The profile name made of `raw`.
pub fn sanitize_profile_name(raw: &str) -> (r: String)
    ensures
        r@ == sanitized_seq(raw@),
{
    let ghost f = |c: char| not_alnum(c);
    let ghost dash = seq!['-'];
    proof {
        reveal_strlit("-");
        reveal_strlit("provider");
    }
    assert("-"@ == dash);
    let cs = chars_of(raw);
    let ghost t = lower_seq(cs@);
    let mut out: Vec<char> = Vec::new();
    let mut last_was_separator = false;
    let mut i: usize = 0;
    assert(t.take(0) =~= seq![]);
    while i < cs.len()
        invariant
            i <= cs.len(),
            t == lower_seq(cs@),
            t.len() == cs.len(),
            f == (|c: char| not_alnum(c)),
            dash == seq!['-'],
            out@ == join_seq(runs_seq(t.take(i as int), f), dash) + (if last_was_separator {
                dash
            } else {
                seq![]
            }),
            last_was_separator == (runs_seq(t.take(i as int), f).len() > 0 && i > 0 && not_alnum(
                t[i - 1],
            )),
            runs_seq(t.take(i as int), f).len() == 0 ==> out@.len() == 0,
        decreases cs.len() - i,
    {
        let c = cs[i];
        let lc = to_ascii_lowercase(c);
        let ghost p = t.take(i as int);
        let ghost w = runs_seq(p, f);
        assert(t.take(i + 1).drop_last() =~= p);
        assert(t.take(i + 1).last() == lc);
        proof {
            lemma_lower_alnum(c);
            lemma_runs_nonempty(p, f);
            lemma_join_nonempty(w, dash);
            if i > 0 {
                assert(p.last() == t[i - 1]);
            }
        }
        if is_ascii_alphanumeric(c) {
            if last_was_separator {
                proof {
                    lemma_join_push(w, dash, seq![lc]);
                }
                out.push(lc);
                assert(out@ =~= join_seq(runs_seq(t.take(i + 1), f), dash));
            } else if out.len() == 0 {
                proof {
                    lemma_join_push(w, dash, seq![lc]);
                    if w.len() > 0 {
                        assert(join_seq(w, dash).len() > 0);
                    }
                }
                out.push(lc);
                assert(out@ =~= join_seq(runs_seq(t.take(i + 1), f), dash));
            } else {
                proof {
                    lemma_join_extend_last(w, dash, lc);
                }
                out.push(lc);
            }
            last_was_separator = false;
        } else if out.len() > 0 && !last_was_separator {
            out.push('-');
            last_was_separator = true;
        }
        i += 1;
    }
    assert(t.take(cs.len() as int) =~= t);
    if last_was_separator {
        let _ = out.pop();
        assert(out@ =~= join_seq(runs_seq(t, f), dash));
    }
    if out.len() == 0 {
        owned("provider")
    } else {
        string_from_chars(&out)
    }
}

/// The host of the URL written in `text`, as the `url` crate parses it.
pub uninterp spec fn parsed_url_host(text: Seq<char>) -> Option<Seq<char>>;

/// The host of the URL in `text` (`url::Url::parse`, then `Url::host_str`);
/// none when `text` does not parse or the URL has no host. The result is
/// named, not spelled out: it is a function of the text alone.
#[verifier::external_body]
fn url_host(text: &str) -> (r: Option<String>)
    ensures
        opt_view(r) == parsed_url_host(text@),
{
    match url::Url::parse(text) {
        Ok(url) => match url.host_str() {
            Some(host) => Some(host.to_string()),
            None => None,
        },
        Err(_) => None,
    }
}

/// The profile name that a base URL and model suggest: named after the URL's
/// host when it has one, else after the model.
pub open spec fn suggested_name_seq(base_url: Seq<char>, model: Seq<char>) -> Seq<char> {
    sanitized_seq(
        match parsed_url_host(normalized_url_seq(base_url)) {
            Some(host) => host_name_seq(host),
            None => model,
        },
    )
}

/// The profile name that a base URL and model suggest.
pub fn suggested_profile_name(base_url: &str, model: &str) -> (r: String)
    ensures
        r@ == suggested_name_seq(base_url@, model@),
{
    let normalized = normalize_base_url(base_url);
    let raw = match url_host(normalized.as_str()) {
        Some(host) => host_profile_name(host.as_str()),
        None => owned(model),
    };
    sanitize_profile_name(raw.as_str())
}

/// The `k`-th name tried for a new profile: `base` itself first (for `k`
/// below 2), then `base-2`, `base-3`, and so on.
pub open spec fn candidate_name(base: Seq<char>, k: nat) -> Seq<char> {
    if k < 2 {
        base
    } else {
        base + "-"@ + decimal_seq(k)
    }
}

/// Whether some candidate from the `s`-th on is `name`.
pub open spec fn candidate_from(name: Seq<char>, base: Seq<char>, s: nat) -> bool {
    exists|j: nat| j >= s && name == #[trigger] candidate_name(base, j)
}

/// How many profiles are named after a candidate from the `s`-th on.
pub open spec fn count_candidates_from(ps: Seq<ProfileView>, base: Seq<char>, s: nat) -> nat
    decreases ps.len(),
{
    if ps.len() == 0 {
        0
    } else {
        count_candidates_from(ps.drop_last(), base, s) + if candidate_from(ps.last().name, base, s) {
            1nat
        } else {
            0nat
        }
    }
}

/// Candidates from the first on are pairwise different.
proof fn lemma_candidate_injective(base: Seq<char>, j: nat, k: nat)
    requires
        1 <= j,
        1 <= k,
        candidate_name(base, j) == candidate_name(base, k),
    ensures
        j == k,
{
    reveal_strlit("-");
    lemma_decimal_len(j);
    lemma_decimal_len(k);
    if j >= 2 && k >= 2 {
        let n: int = (base.len() + 1) as int;
        assert(candidate_name(base, j).skip(n) =~= decimal_seq(j));
        assert(candidate_name(base, k).skip(n) =~= decimal_seq(k));
        lemma_decimal_injective(j, k);
    } else if j >= 2 {
        assert(candidate_name(base, j).len() > base.len());
    } else if k >= 2 {
        assert(candidate_name(base, k).len() > base.len());
    }
}

proof fn lemma_count_candidates(ps: Seq<ProfileView>, base: Seq<char>, s: nat)
    requires
        s >= 1,
    ensures
        count_candidates_from(ps, base, s) <= ps.len(),
        count_candidates_from(ps, base, s + 1) <= count_candidates_from(ps, base, s),
        name_taken(ps, candidate_name(base, s)) ==> count_candidates_from(ps, base, s + 1)
            < count_candidates_from(ps, base, s),
    decreases ps.len(),
{
    if ps.len() > 0 {
        let p = ps.drop_last();
        lemma_count_candidates(p, base, s);
        let name = ps.last().name;
        if candidate_from(name, base, s + 1) {
            let j = choose|j: nat| j >= s + 1 && name == #[trigger] candidate_name(base, j);
            assert(candidate_from(name, base, s));
        }
        if name_taken(ps, candidate_name(base, s)) {
            let i = choose|i: int| 0 <= i < ps.len() && #[trigger] ps[i].name == candidate_name(base, s);
            if i == ps.len() - 1 {
                assert(candidate_from(name, base, s));
                if candidate_from(name, base, s + 1) {
                    let j = choose|j: nat| j >= s + 1 && name == #[trigger] candidate_name(base, j);
                    lemma_candidate_injective(base, j, s);
                }
            } else {
                assert(p[i].name == candidate_name(base, s));
                assert(name_taken(p, candidate_name(base, s)));
            }
        }
    }
}

/// What new profile names are made from: `default` while there is no
/// profile, else the name suggested by the endpoint and model.
pub open spec fn name_base(ps: Seq<ProfileView>, base_url: Seq<char>, model: Seq<char>) -> Seq<char> {
    if ps.len() == 0 {
        "default"@
    } else {
        suggested_name_seq(base_url, model)
    }
}

impl RobConfig {
    /// The name for a new profile: `default` when there are none yet, else the
    /// suggested name; the first of it, `it-2`, `it-3`, ... that no profile has.
    pub fn next_profile_name(&self, base_url: &str, model: &str) -> (r: String)
        ensures
            exists|k: nat|
                k >= 1 && r@ == #[trigger] candidate_name(
                    name_base(self.profiles_v(), base_url@, model@),
                    k,
                ) && !name_taken(self.profiles_v(), r@) && forall|j: nat|
                    1 <= j < k ==> name_taken(
                        self.profiles_v(),
                        #[trigger] candidate_name(name_base(self.profiles_v(), base_url@, model@), j),
                    ),
    {
        let base = if self.profiles.len() == 0 {
            owned("default")
        } else {
            suggested_profile_name(base_url, model)
        };
        let ghost v = self.profiles_v();
        let mut candidate = base.clone();
        let mut suffix: u128 = 2;
        proof {
            lemma_count_candidates(v, base@, 1);
        }
        loop
            invariant
                2 <= suffix,
                v == self.profiles_v(),
                base@ == name_base(v, base_url@, model@),
                candidate@ == candidate_name(base@, (suffix - 1) as nat),
                forall|j: nat| 1 <= j < suffix - 1 ==> name_taken(v, #[trigger] candidate_name(base@, j)),
                count_candidates_from(v, base@, (suffix - 1) as nat) + suffix - 1 <= v.len() + 1,
            decreases count_candidates_from(v, base@, (suffix - 1) as nat),
        {
            let ghost s = (suffix - 1) as nat;
            proof {
                lemma_index_of_name(v, candidate@);
                lemma_count_candidates(v, base@, s);
            }
            let k = find_name(&self.profiles, candidate.as_str());
            if k == self.profiles.len() {
                assert(!name_taken(v, candidate@));
                proof {
                    assert(candidate@ == candidate_name(base@, s));
                    assert(forall|j: nat|
                        1 <= j < s ==> name_taken(v, #[trigger] candidate_name(base@, j)));
                    assert(s >= 1);
                }
                return candidate;
            }
            assert(name_taken(v, candidate_name(base@, s)));
            let dashed = concat_str(base.as_str(), "-");
            let digits = u128_to_text(suffix);
            candidate = concat_str(dashed.as_str(), digits.as_str());
            assert(candidate@ == candidate_name(base@, suffix as nat));
            suffix = suffix + 1;
        }
    }
}

/// Whether `c` is a lower-case hexadecimal digit.
pub open spec fn is_lower_hex(c: char) -> bool {
    ('0' <= c <= '9') || ('a' <= c <= 'f')
}

/// Whether `s` is a version-4 UUID written out in lower-case hyphenated
/// form: 36 characters, hyphens at 8, 13, 18 and 23, the version digit `4`
/// at 14, one of `8`, `9`, `a`, `b` at 19, and hexadecimal digits elsewhere.
pub open spec fn is_uuid_v4_text(s: Seq<char>) -> bool {
    &&& s.len() == 36
    &&& forall|i: int|
        0 <= i < 36 ==> if i == 8 || i == 13 || i == 18 || i == 23 {
            #[trigger] s[i] == '-'
        } else {
            is_lower_hex(s[i])
        }
    &&& s[14] == '4'
    &&& (s[19] == '8' || s[19] == '9' || s[19] == 'a' || s[19] == 'b')
}

/// A fresh random id (`uuid::Uuid::new_v4`, written out with `to_string`):
/// a version-4 UUID in lower-case hyphenated form. Which one comes out is
/// chance, so nothing more is said of it.
#[verifier::external_body]
pub(crate) fn new_uuid() -> (r: String)
    ensures
        is_uuid_v4_text(r@),
{
    uuid::Uuid::new_v4().to_string()
}

impl ProviderProfile {
    /// A new profile with a fresh random id and a normalised base URL.
    pub fn new(
        name: String,
        base_url: String,
        model: String,
        api_key_env: Option<String>,
        api_key: Option<String>,
        protocol: String,
    ) -> (r: Self)
        ensures
            is_uuid_v4_text(r.id@),
            r.name@ == name@,
            r.base_url@ == normalized_url_seq(base_url@),
            r.model@ == model@,
            opt_view(r.api_key_env) == opt_view(api_key_env),
            opt_view(r.api_key) == opt_view(api_key),
            r.protocol@ == protocol@,
    {
        ProviderProfile {
            id: new_uuid(),
            name,
            base_url: normalize_base_url(base_url.as_str()),
            model,
            api_key_env,
            api_key,
            protocol,
        }
    }

    /// The API key to use. `env_value` is the value of the environment
    /// variable that `api_key_env` names, when it is set. That variable wins
    /// when it is set and not blank; an unset variable is an error. Else a
    /// non-blank `api_key` is used; else there is no key.
    pub fn resolve_api_key(&self, env_value: Option<String>) -> (r: Result<String, ConfigError>)
        ensures
            match self.api_key_env {
                Some(env_name) => match env_value {
                    None => r matches Err(ConfigError::MissingEnv(n)) && n@ == env_name@,
                    Some(v) => if trim_seq(v@).len() > 0 {
                        r matches Ok(k) && k@ == v@
                    } else {
                        key_fallback(self@, r)
                    },
                },
                None => key_fallback(self@, r),
            },
    {
        match &self.api_key_env {
            Some(env_name) => match env_value {
                None => {
                    return Err(ConfigError::MissingEnv(env_name.clone()));
                },
                Some(value) => {
                    if !is_blank(value.as_str()) {
                        return Ok(value);
                    }
                },
            },
            None => {},
        }
        match &self.api_key {
            Some(api_key) => {
                if !is_blank(api_key.as_str()) {
                    return Ok(api_key.clone());
                }
            },
            None => {},
        }
        Err(ConfigError::NoApiKey(self.name.clone()))
    }
}

/// What `resolve_api_key` returns once the environment gives no key: a
/// non-blank stored key, else the error that names the profile.
pub open spec fn key_fallback(p: ProfileView, r: Result<String, ConfigError>) -> bool {
    match p.api_key {
        Some(k) => if trim_seq(k).len() > 0 {
            r matches Ok(v) && v@ == k
        } else {
            r matches Err(ConfigError::NoApiKey(n)) && n@ == p.name
        },
        None => r matches Err(ConfigError::NoApiKey(n)) && n@ == p.name,
    }
}

impl Default for ApprovalPolicy {
    fn default() -> (r: Self)
        ensures
            r == ApprovalPolicy::Auto,
    {
        ApprovalPolicy::Auto
    }
}

impl Default for ReasoningEffort {
    fn default() -> (r: Self)
        ensures
            r == ReasoningEffort::Auto,
    {
        ReasoningEffort::Auto
    }
}

impl Default for ContextConfig {
    fn default() -> (r: Self)
        ensures
            r.token_threshold == 32000,
            r.recent_messages == 12,
    {
        ContextConfig { token_threshold: 32000, recent_messages: 12 }
    }
}

impl Default for ReasoningConfig {
    fn default() -> (r: Self)
        ensures
            r.effort == ReasoningEffort::Auto,
    {
        ReasoningConfig { effort: ReasoningEffort::Auto }
    }
}

impl Default for RobConfig {
    fn default() -> (r: Self)
        ensures
            r.active_profile_id@.len() == 0,
            r.profiles@.len() == 0,
            r.tool_approval == ApprovalPolicy::Auto,
            r.context.token_threshold == 32000,
            r.context.recent_messages == 12,
            r.reasoning.effort == ReasoningEffort::Auto,
    {
        RobConfig {
            active_profile_id: String::new(),
            profiles: Vec::new(),
            tool_approval: ApprovalPolicy::Auto,
            context: ContextConfig::default(),
            reasoning: ReasoningConfig::default(),
        }
    }
}

/// The name of an approval policy as it is written in the configuration.
pub open spec fn approval_text(p: ApprovalPolicy) -> Seq<char> {
    match p {
        ApprovalPolicy::Auto => "auto"@,
        ApprovalPolicy::OnRequest => "on-request"@,
    }
}

/// The name of a reasoning effort as it is written in the configuration.
pub open spec fn effort_text(e: ReasoningEffort) -> Seq<char> {
    match e {
        ReasoningEffort::Auto => "auto"@,
        ReasoningEffort::No => "no"@,
        ReasoningEffort::Low => "low"@,
        ReasoningEffort::Medium => "medium"@,
        ReasoningEffort::High => "high"@,
    }
}

impl ApprovalPolicy {
    /// The policy's name: `auto` or `on-request`.
    pub fn to_string(&self) -> (r: String)
        ensures
            r@ == approval_text(*self),
    {
        match self {
            ApprovalPolicy::Auto => owned("auto"),
            ApprovalPolicy::OnRequest => owned("on-request"),
        }
    }
}

impl ReasoningEffort {
    /// The effort's name: `auto`, `no`, `low`, `medium` or `high`.
    pub fn to_string(&self) -> (r: String)
        ensures
            r@ == effort_text(*self),
    {
        match self {
            ReasoningEffort::Auto => owned("auto"),
            ReasoningEffort::No => owned("no"),
            ReasoningEffort::Low => owned("low"),
            ReasoningEffort::Medium => owned("medium"),
            ReasoningEffort::High => owned("high"),
        }
    }
}

/// The reasoning controls that a request carries for `effort`: `no` turns
/// thinking off (`enable_thinking` false), `low`, `medium` and `high` are
/// sent as the `reasoning_effort` by name, and `auto` sends neither.
pub open spec fn reasoning_controls(effort: ReasoningEffort) -> (Option<bool>, Option<Seq<char>>) {
    match effort {
        ReasoningEffort::Auto => (None, None),
        ReasoningEffort::No => (Some(false), None),
        _ => (None, Some(effort_text(effort))),
    }
}

/// The reasoning controls to send with a request: the value of
/// `enable_thinking` and that of `reasoning_effort`, each when it is sent.
pub fn reasoning_fields(effort: ReasoningEffort) -> (r: (Option<bool>, Option<String>))
    ensures
        r.0 == reasoning_controls(effort).0,
        match r.1 {
            Some(t) => reasoning_controls(effort).1 == Some(t@),
            None => reasoning_controls(effort).1 is None,
        },
{
    match effort {
        ReasoningEffort::Auto => (None, None),
        ReasoningEffort::No => (Some(false), None),
        _ => (None, Some(effort.to_string())),
    }
}

/// The sentence that explains a configuration error.
pub open spec fn config_error_text(e: ConfigError) -> Seq<char> {
    match e {
        ConfigError::NoProvider => "no provider configured; run `rob config set --base-url ... --model ... --api-key-env ...`"@,
        ConfigError::DuplicateName(n) => "provider profile `"@ + n@
            + "` already exists; choose a different --name or pass --replace"@,
        ConfigError::ProfileNotFound(r) => "provider profile `"@ + r@ + "` was not found"@,
        ConfigError::MissingEnv(n) => "environment variable "@ + n@ + " is not set"@,
        ConfigError::NoApiKey(n) => "provider `"@ + n@ + "` has no API key; set api_key_env or api_key"@,
    }
}

impl ConfigError {
    /// The error as a sentence.
    pub fn to_string(&self) -> (r: String)
        ensures
            r@ == config_error_text(*self),
    {
        match self {
            ConfigError::NoProvider => owned(
                "no provider configured; run `rob config set --base-url ... --model ... --api-key-env ...`",
            ),
            ConfigError::DuplicateName(n) => {
                let head = concat_str("provider profile `", n.as_str());
                concat_str(
                    head.as_str(),
                    "` already exists; choose a different --name or pass --replace",
                )
            },
            ConfigError::ProfileNotFound(r) => {
                let head = concat_str("provider profile `", r.as_str());
                concat_str(head.as_str(), "` was not found")
            },
            ConfigError::MissingEnv(n) => {
                let head = concat_str("environment variable ", n.as_str());
                concat_str(head.as_str(), " is not set")
            },
            ConfigError::NoApiKey(n) => {
                let head = concat_str("provider `", n.as_str());
                concat_str(head.as_str(), "` has no API key; set api_key_env or api_key")
            },
        }
    }
}

} // verus!
