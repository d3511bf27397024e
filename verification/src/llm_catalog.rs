//! The catalogue of models a user can pick from: what the choosing logic reads of a model,
//! the models of each feature with their default, and how models are looked up, listed and
//! named.
use vstd::prelude::*;
use vstd::string::*;

use crate::execution_profiles::opt_string_view;
use crate::llms::{
    is_usable_llm, is_usable_spec, ByoKeySource, DisableReason, LLMContextWindow, LLMModelHost,
    LLMProvider, RoutingHostConfig,
};
use crate::text::str_eq;

verus! {


/// Which providers the user has configured an API key for.
#[derive(Debug, Clone, Copy, PartialEq, Eq, Structural)]
pub struct ApiKeyPresence {
    pub openai: bool,
    pub anthropic: bool,
    pub google: bool,
}

/// Whether the user's own key is used for a provider: a key is configured for it (no key can
/// be configured for xAI or an unknown provider).
pub open spec fn has_key_spec(provider: LLMProvider, keys: ApiKeyPresence) -> bool {
    match provider {
        LLMProvider::OpenAI => keys.openai,
        LLMProvider::Anthropic => keys.anthropic,
        LLMProvider::Google => keys.google,
        LLMProvider::Xai => false,
        LLMProvider::Unknown => false,
    }
}

/// Whether the user's own key is used for a provider; see [`has_key_spec`].
pub fn is_using_api_key_for_provider(provider: &LLMProvider, keys: &ApiKeyPresence) -> (r: bool)
    ensures
        r == has_key_spec(*provider, *keys),
{
    match provider {
        LLMProvider::OpenAI => keys.openai,
        LLMProvider::Anthropic => keys.anthropic,
        LLMProvider::Google => keys.google,
        LLMProvider::Xai => false,
        LLMProvider::Unknown => false,
    }
}

/// The source of the key used for a provider: the user's own, when there is one.
pub fn first_party_key_source_for_provider(provider: &LLMProvider, keys: &ApiKeyPresence) -> (r:
    Option<ByoKeySource>)
    ensures
        r == if has_key_spec(*provider, *keys) {
            Some(ByoKeySource::UserProvided)
        } else {
            None
        },
{
    if is_using_api_key_for_provider(provider, keys) {
        Some(ByoKeySource::UserProvided)
    } else {
        None
    }
}

/// Whether the user's own key is used for a provider.
pub fn is_using_first_party_key_for_provider(provider: &LLMProvider, keys: &ApiKeyPresence) -> (r:
    bool)
    ensures
        r == has_key_spec(*provider, *keys),
{
    first_party_key_source_for_provider(provider, keys).is_some()
}

/// What the choosing logic reads of a model.
#[derive(Debug, Clone, PartialEq, Eq)]
pub struct LLMInfo {
    pub display_name: String,
    /// The name without a reasoning level (`gpt-5.1` for `gpt-5.1 (low reasoning)`).
    pub base_model_name: String,
    pub id: String,
    pub reasoning_level: Option<String>,
    pub description: Option<String>,
    pub disable_reason: Option<DisableReason>,
    pub vision_supported: bool,
    pub provider: LLMProvider,
    /// The hosts the model can be routed to, by host; a later entry for a host replaces an
    /// earlier one.
    pub host_configs: Vec<RoutingHostConfig>,
    pub context_window: LLMContextWindow,
    /// Whether the model is a custom model router, whose label carries no description.
    pub is_custom_router: bool,
}

/// Whether a model is usable for the user, given their keys.
pub open spec fn usable_spec(info: LLMInfo, keys: ApiKeyPresence) -> bool {
    is_usable_spec(info.disable_reason, has_key_spec(info.provider, keys))
}

/// Whether a model is usable for the user, given their keys; see [`usable_spec`].
pub fn is_usable(info: &LLMInfo, keys: &ApiKeyPresence) -> (r: bool)
    ensures
        r == usable_spec(*info, *keys),
{
    is_usable_llm(info.disable_reason, is_using_first_party_key_for_provider(&info.provider, keys))
}

/// The label of a model in the picker: its display name, followed by its description in
/// brackets when it has one and is not a custom router.
pub open spec fn menu_label_spec(info: LLMInfo) -> Seq<char> {
    if info.is_custom_router {
        info.display_name@
    } else {
        match info.description {
            Some(d) => info.display_name@ + " ("@ + d@ + ")"@,
            None => info.display_name@,
        }
    }
}

/// The last routing entry of `configs` for `host`, if any.
pub open spec fn host_config_spec(configs: Seq<RoutingHostConfig>, host: LLMModelHost) -> Option<
    RoutingHostConfig,
>
    decreases configs.len(),
{
    if configs.len() == 0 {
        None
    } else if configs.last().model_routing_host == host {
        Some(configs.last())
    } else {
        host_config_spec(configs.drop_last(), host)
    }
}

impl LLMInfo {
    /// The base model's name of an entry that may leave it out: the name given, else the
    /// entry's display name.
    pub fn base_model_name_or_display(base_model_name: Option<String>, display_name: &str) -> (r: String)
        ensures
            r@ == match base_model_name {
                Some(b) => b@,
                None => display_name@,
            },
    {
        match base_model_name {
            Some(b) => b,
            None => String::from_str(display_name),
        }
    }

    /// The model's label in the picker; see [`menu_label_spec`].
    pub fn menu_display_name(&self) -> (r: String)
        ensures
            r@ == menu_label_spec(*self),
    {
        if self.is_custom_router {
            return self.display_name.clone();
        }
        match &self.description {
            Some(desc) => {
                let mut label = self.display_name.clone();
                label.append(" (");
                label.append(desc.as_str());
                label.append(")");
                label
            },
            None => self.display_name.clone(),
        }
    }

    /// The model's name without a reasoning level.
    pub fn base_model_name(&self) -> (r: &str)
        ensures
            r@ == self.base_model_name@,
    {
        self.base_model_name.as_str()
    }

    /// Whether the model has a reasoning level.
    pub fn has_reasoning_level(&self) -> (r: bool)
        ensures
            r == self.reasoning_level is Some,
    {
        self.reasoning_level.is_some()
    }

    /// The model's reasoning level, if it has one.
    pub fn reasoning_level(&self) -> (r: Option<String>)
        ensures
            r == self.reasoning_level,
    {
        match &self.reasoning_level {
            Some(l) => Some(l.clone()),
            None => None,
        }
    }

    /// The routing entry for a host, if the model has one.
    pub fn host_config(&self, host: LLMModelHost) -> (r: Option<RoutingHostConfig>)
        ensures
            r == host_config_spec(self.host_configs@, host),
    {
        let mut i: usize = self.host_configs.len();
        proof {
            assert(self.host_configs@.take(i as int) =~= self.host_configs@);
        }
        while i > 0
            invariant
                i <= self.host_configs@.len(),
                host_config_spec(self.host_configs@, host) == host_config_spec(
                    self.host_configs@.take(i as int),
                    host,
                ),
            decreases i,
        {
            let c = self.host_configs[i - 1];
            proof {
                assert(self.host_configs@.take(i as int).drop_last() =~= self.host_configs@.take(i - 1));
                assert(self.host_configs@.take(i as int).last() == c);
            }
            if c.model_routing_host == host {
                return Some(c);
            }
            i = i - 1;
        }
        proof {
            assert(self.host_configs@.take(0) =~= Seq::<RoutingHostConfig>::empty());
        }
        None
    }

    /// Whether the model is shown with the Bedrock mark: routing to AWS Bedrock is enabled.
    pub fn should_show_bedrock_icon(&self) -> (r: bool)
        ensures
            r == (host_config_spec(self.host_configs@, LLMModelHost::AwsBedrock) matches Some(c)
                && c.enabled),
    {
        match self.host_config(LLMModelHost::AwsBedrock) {
            Some(c) => c.enabled,
            None => false,
        }
    }
}

/// Index `i` holds the first model of `choices` with id `id`.
pub open spec fn is_first_with_id(choices: Seq<LLMInfo>, id: Seq<char>, i: int) -> bool {
    &&& 0 <= i < choices.len()
    &&& choices[i].id@ == id
    &&& forall|j: int| 0 <= j < i ==> (#[trigger] choices[j]).id@ != id
}

/// The first model of `choices` with id `id`, if any.
pub open spec fn lookup(choices: Seq<LLMInfo>, id: Seq<char>) -> Option<LLMInfo> {
    if exists|i: int| #[trigger] is_first_with_id(choices, id, i) {
        Some(choices[choose|i: int| #[trigger] is_first_with_id(choices, id, i)])
    } else {
        None
    }
}

/// Index `i` holds the first model of `choices` that the user can use.
pub open spec fn is_first_usable(choices: Seq<LLMInfo>, keys: ApiKeyPresence, i: int) -> bool {
    &&& 0 <= i < choices.len()
    &&& usable_spec(choices[i], keys)
    &&& forall|j: int| 0 <= j < i ==> !usable_spec(#[trigger] choices[j], keys)
}

/// The first model of `choices` that the user can use, if any.
pub open spec fn first_usable(choices: Seq<LLMInfo>, keys: ApiKeyPresence) -> Option<LLMInfo> {
    if exists|i: int| #[trigger] is_first_usable(choices, keys, i) {
        Some(choices[choose|i: int| #[trigger] is_first_usable(choices, keys, i)])
    } else {
        None
    }
}

/// The default model if the user can use it, else the first model they can use, else none.
pub open spec fn usable_default(choices: Seq<LLMInfo>, default_id: Seq<char>, keys: ApiKeyPresence) -> Option<
    LLMInfo,
> {
    match lookup(choices, default_id) {
        Some(d) => if usable_spec(d, keys) {
            Some(d)
        } else {
            first_usable(choices, keys)
        },
        None => first_usable(choices, keys),
    }
}

/// The default model: the first with the default id, or the first model when none has it.
pub open spec fn default_info(choices: Seq<LLMInfo>, default_id: Seq<char>) -> LLMInfo {
    match lookup(choices, default_id) {
        Some(d) => d,
        None => choices[0],
    }
}

/// The option of a reference, by the value it refers to.
pub open spec fn deref_opt(r: Option<&LLMInfo>) -> Option<LLMInfo> {
    match r {
        Some(x) => Some(*x),
        None => None,
    }
}

proof fn lemma_first_with_id_unique(choices: Seq<LLMInfo>, id: Seq<char>, i: int)
    requires
        is_first_with_id(choices, id, i),
    ensures
        lookup(choices, id) == Some(choices[i]),
{
    let k = choose|k: int| #[trigger] is_first_with_id(choices, id, k);
    if k < i {
        assert(choices[k].id@ == id);
    } else if k > i {
        assert(choices[i].id@ == id);
    }
}

proof fn lemma_first_usable_unique(choices: Seq<LLMInfo>, keys: ApiKeyPresence, i: int)
    requires
        is_first_usable(choices, keys, i),
    ensures
        first_usable(choices, keys) == Some(choices[i]),
{
    let k = choose|k: int| #[trigger] is_first_usable(choices, keys, k);
    if k < i {
        assert(usable_spec(choices[k], keys));
    } else if k > i {
        assert(usable_spec(choices[i], keys));
    }
}

/// Looks up the first model of `choices` with id `id`; see [`lookup`].
pub fn find_by_id<'a>(choices: &'a Vec<LLMInfo>, id: &str) -> (r: Option<&'a LLMInfo>)
    ensures
        deref_opt(r) == lookup(choices@, id@),
{
    let mut i: usize = 0;
    while i < choices.len()
        invariant
            i <= choices@.len(),
            forall|j: int| 0 <= j < i ==> (#[trigger] choices@[j]).id@ != id@,
        decreases choices@.len() - i,
    {
        if str_eq(choices[i].id.as_str(), id) {
            proof {
                lemma_first_with_id_unique(choices@, id@, i as int);
            }
            return Some(&choices[i]);
        }
        i = i + 1;
    }
    None
}

/// Looks up the first model of `choices` that the user can use; see [`first_usable`].
fn find_first_usable<'a>(choices: &'a Vec<LLMInfo>, keys: &ApiKeyPresence) -> (r: Option<&'a LLMInfo>)
    ensures
        deref_opt(r) == first_usable(choices@, *keys),
{
    let mut i: usize = 0;
    while i < choices.len()
        invariant
            i <= choices@.len(),
            forall|j: int| 0 <= j < i ==> !usable_spec(#[trigger] choices@[j], *keys),
        decreases choices@.len() - i,
    {
        if is_usable(&choices[i], keys) {
            proof {
                lemma_first_usable_unique(choices@, *keys, i as int);
            }
            return Some(&choices[i]);
        }
        i = i + 1;
    }
    None
}

/// The models available for one feature, with the default among them. There is always at
/// least one.
pub struct AvailableLLMs {
    default_id: String,
    choices: Vec<LLMInfo>,
    preferred_codex_model_id: Option<String>,
}

impl AvailableLLMs {
    #[verifier::type_invariant]
    closed spec fn has_choices(self) -> bool {
        self.choices@.len() > 0
    }

    pub closed spec fn default_id_spec(&self) -> Seq<char> {
        self.default_id@
    }

    pub closed spec fn choices_spec(&self) -> Seq<LLMInfo> {
        self.choices@
    }

    pub closed spec fn preferred_codex_spec(&self) -> Option<Seq<char>> {
        match self.preferred_codex_model_id {
            Some(p) => Some(p@),
            None => None,
        }
    }

    /// The models for a feature. There must be at least one: an empty list is refused. A
    /// default that none of them has is replaced by the first one's id.
    pub fn new(default_id: String, choices: Vec<LLMInfo>, preferred_codex_model_id: Option<String>) -> (r:
        Result<Self, String>)
        ensures
            choices@.len() == 0 <==> r is Err,
            r matches Err(e) ==> e@ == "Tried to create AvailableLLMs with empty`choices`."@,
            r matches Ok(a) ==> {
                &&& a.choices_spec() == choices@
                &&& a.preferred_codex_spec() == match preferred_codex_model_id {
                    Some(p) => Some(p@),
                    None => None::<Seq<char>>,
                }
                &&& a.default_id_spec() == if lookup(choices@, default_id@) is None {
                    choices@[0].id@
                } else {
                    default_id@
                }
            },
    {
        if choices.len() == 0 {
            return Err(String::from_str("Tried to create AvailableLLMs with empty`choices`."));
        }
        let default = match find_by_id(&choices, default_id.as_str()) {
            Some(_) => default_id,
            None => choices[0].id.clone(),
        };
        Ok(AvailableLLMs { default_id: default, choices, preferred_codex_model_id })
    }

    /// The models for a feature as a stored or received list names them, kept as they are: a
    /// default that none of them has stays (see [`AvailableLLMs::default_llm_info`] for how it
    /// is read). A list without models cannot be held and is refused.
    pub fn from_stored(default_id: String, choices: Vec<LLMInfo>, preferred_codex_model_id: Option<String>) -> (r:
        Result<Self, String>)
        ensures
            choices@.len() == 0 <==> r is Err,
            r matches Err(e) ==> e@ == "Tried to create AvailableLLMs with empty`choices`."@,
            r matches Ok(a) ==> {
                &&& a.choices_spec() == choices@
                &&& a.preferred_codex_spec() == match preferred_codex_model_id {
                    Some(p) => Some(p@),
                    None => None::<Seq<char>>,
                }
                &&& a.default_id_spec() == default_id@
            },
    {
        if choices.len() == 0 {
            return Err(String::from_str("Tried to create AvailableLLMs with empty`choices`."));
        }
        Ok(AvailableLLMs { default_id, choices, preferred_codex_model_id })
    }

    /// The id of the default model.
    pub fn default_id(&self) -> (r: &str)
        ensures
            r@ == self.default_id_spec(),
    {
        self.default_id.as_str()
    }

    /// The models, in order.
    pub fn choices(&self) -> (r: &Vec<LLMInfo>)
        ensures
            r@ == self.choices_spec(),
            r@.len() > 0,
    {
        proof {
            use_type_invariant(self);
        }
        &self.choices
    }

    /// The first model with this id; see [`lookup`].
    pub fn info_for_id(&self, id: &str) -> (r: Option<&LLMInfo>)
        ensures
            deref_opt(r) == lookup(self.choices_spec(), id@),
    {
        find_by_id(&self.choices, id)
    }

    /// The model with this id, when the user can use it; see [`usable_lookup`].
    pub fn usable_info_for_id(&self, id: &str, keys: &ApiKeyPresence) -> (r: Option<&LLMInfo>)
        ensures
            deref_opt(r) == usable_lookup(self.choices_spec(), id@, *keys),
    {
        match self.info_for_id(id) {
            Some(x) => if is_usable(x, keys) {
                Some(x)
            } else {
                None
            },
            None => None,
        }
    }

    /// The default model; see [`default_info`].
    pub fn default_llm_info(&self) -> (r: &LLMInfo)
        ensures
            *r == default_info(self.choices_spec(), self.default_id_spec()),
    {
        proof {
            use_type_invariant(self);
        }
        match find_by_id(&self.choices, self.default_id.as_str()) {
            Some(info) => info,
            None => &self.choices[0],
        }
    }

    /// The default model if the user can use it, else the first model they can use; see
    /// [`usable_default`].
    pub fn usable_default_llm_info(&self, keys: &ApiKeyPresence) -> (r: Option<&LLMInfo>)
        ensures
            deref_opt(r) == usable_default(self.choices_spec(), self.default_id_spec(), *keys),
    {
        match find_by_id(&self.choices, self.default_id.as_str()) {
            Some(info) => {
                if is_usable(info, keys) {
                    return Some(info);
                }
            },
            None => {},
        }
        find_first_usable(&self.choices, keys)
    }

    /// The preferred Codex model, if one is set and listed.
    pub fn preferred_codex_model(&self) -> (r: Option<&LLMInfo>)
        ensures
            deref_opt(r) == match self.preferred_codex_spec() {
                Some(p) => lookup(self.choices_spec(), p),
                None => None,
            },
    {
        match &self.preferred_codex_model_id {
            Some(id) => self.info_for_id(id.as_str()),
            None => None,
        }
    }
}

/// The first of two optional models that is there.
pub open spec fn or_else(a: Option<LLMInfo>, b: Option<LLMInfo>) -> Option<LLMInfo> {
    match a {
        Some(x) => Some(x),
        None => b,
    }
}

/// The models of each feature. The CLI agent uses the agent-mode models when it has none of
/// its own.
pub struct ModelsByFeature {
    pub agent_mode: AvailableLLMs,
    pub coding: AvailableLLMs,
    pub cli_agent: Option<AvailableLLMs>,
    pub computer_use: Option<AvailableLLMs>,
}

impl ModelsByFeature {
    /// A model by id, among the agent-mode models.
    pub fn info_for_id(&self, id: &str) -> (r: Option<&LLMInfo>)
        ensures
            deref_opt(r) == lookup(self.agent_mode.choices_spec(), id@),
    {
        self.agent_mode.info_for_id(id)
    }
}

/// The model that a computer-use agent uses when the server lists none: `auto`.
pub fn default_computer_use_llms() -> (r: AvailableLLMs)
    ensures
        r.choices_spec().len() == 1,
        r.choices_spec()[0].id@ == "computer-use-agent-auto"@,
        r.choices_spec()[0].display_name@ == "auto"@,
        r.choices_spec()[0].vision_supported,
        r.default_id_spec() == "computer-use-agent-auto"@,
        r.preferred_codex_spec() is None,
{
    let info = LLMInfo {
        display_name: String::from_str("auto"),
        base_model_name: String::from_str("auto"),
        id: String::from_str("computer-use-agent-auto"),
        reasoning_level: None,
        description: None,
        disable_reason: None,
        vision_supported: true,
        provider: LLMProvider::Unknown,
        host_configs: Vec::new(),
        context_window: LLMContextWindow { is_configurable: false, min: 0, max: 0, default_max: 0 },
        is_custom_router: false,
    };
    let mut choices: Vec<LLMInfo> = Vec::new();
    choices.push(info);
    proof {
        reveal_strlit("computer-use-agent-auto");
    }
    AvailableLLMs {
        default_id: String::from_str("computer-use-agent-auto"),
        choices,
        preferred_codex_model_id: None,
    }
}

/// A model with no provider, routing or description, named the same as its base.
fn plain_llm(name: &str, id: &str, vision_supported: bool) -> (r: LLMInfo)
    ensures
        r.display_name@ == name@,
        r.base_model_name@ == name@,
        r.id@ == id@,
        r.vision_supported == vision_supported,
        r.disable_reason is None,
        r.description is None,
        r.provider == LLMProvider::Unknown,
        r.host_configs@.len() == 0,
        !r.is_custom_router,
{
    LLMInfo {
        display_name: String::from_str(name),
        base_model_name: String::from_str(name),
        id: String::from_str(id),
        reasoning_level: None,
        description: None,
        disable_reason: None,
        vision_supported,
        provider: LLMProvider::Unknown,
        host_configs: Vec::new(),
        context_window: LLMContextWindow { is_configurable: false, min: 0, max: 0, default_max: 0 },
        is_custom_router: false,
    }
}

/// A feature's models when it has a single one, which is its default.
fn single_llm(info: LLMInfo) -> (r: AvailableLLMs)
    ensures
        r.choices_spec() == seq![info],
        r.default_id_spec() == info.id@,
        r.preferred_codex_spec() is None,
{
    let default_id = info.id.clone();
    let mut choices: Vec<LLMInfo> = Vec::new();
    choices.push(info);
    AvailableLLMs { default_id, choices, preferred_codex_model_id: None }
}

impl Default for ModelsByFeature {
    /// The models before the server has listed any: `auto` for agent mode and coding, the
    /// CLI agent's `auto`, and the built-in computer-use model.
    fn default() -> (r: Self)
        ensures
            r.agent_mode.choices_spec().len() == 1,
            r.agent_mode.choices_spec()[0].id@ == "auto"@,
            r.agent_mode.choices_spec()[0].display_name@ == "auto (cost-efficient)"@,
            r.agent_mode.choices_spec()[0].vision_supported,
            r.agent_mode.default_id_spec() == "auto"@,
            r.coding.choices_spec().len() == 1,
            r.coding.choices_spec()[0].id@ == "auto"@,
            r.coding.choices_spec()[0].display_name@ == "auto (responsive)"@,
            r.coding.choices_spec()[0].vision_supported,
            r.coding.default_id_spec() == "auto"@,
            r.cli_agent matches Some(c) && {
                &&& c.choices_spec().len() == 1
                &&& c.choices_spec()[0].id@ == "cli-agent-auto"@
                &&& c.choices_spec()[0].display_name@ == "auto"@
                &&& !c.choices_spec()[0].vision_supported
                &&& c.default_id_spec() == "cli-agent-auto"@
            },
            r.computer_use matches Some(c) && {
                &&& c.choices_spec().len() == 1
                &&& c.choices_spec()[0].id@ == "computer-use-agent-auto"@
                &&& c.default_id_spec() == "computer-use-agent-auto"@
            },
    {
        ModelsByFeature {
            agent_mode: single_llm(plain_llm("auto (cost-efficient)", "auto", true)),
            coding: single_llm(plain_llm("auto (responsive)", "auto", true)),
            cli_agent: Some(single_llm(plain_llm("auto", "cli-agent-auto", false))),
            computer_use: Some(default_computer_use_llms()),
        }
    }
}

/// The model with this id among `choices`, when the user can use it.
pub open spec fn usable_lookup(choices: Seq<LLMInfo>, id: Seq<char>, keys: ApiKeyPresence) -> Option<LLMInfo> {
    match lookup(choices, id) {
        Some(x) => if usable_spec(x, keys) {
            Some(x)
        } else {
            None
        },
        None => None,
    }
}

/// An optional string as a string slice.
pub fn opt_as_str(o: &Option<String>) -> (r: Option<&str>)
    ensures
        opt_str_view(r) == opt_string_view(*o),
{
    match o {
        Some(s) => Some(s.as_str()),
        None => None,
    }
}

/// Whether a model is shown with the Bedrock mark; see [`LLMInfo::should_show_bedrock_icon`].
pub fn should_show_bedrock_icon_for_model(llm: &LLMInfo) -> (r: bool)
    ensures
        r == (host_config_spec(llm.host_configs@, LLMModelHost::AwsBedrock) matches Some(c) && c.enabled),
{
    llm.should_show_bedrock_icon()
}

/// An optional string by its view.
pub open spec fn opt_str_view(o: Option<&str>) -> Option<Seq<char>> {
    match o {
        Some(s) => Some(s@),
        None => None,
    }
}

/// The models of `choices` that local configuration did not disable, in order.
pub open spec fn offered(choices: Seq<LLMInfo>) -> Seq<LLMInfo>
    decreases choices.len(),
{
    if choices.len() == 0 {
        Seq::empty()
    } else if choices.last().disable_reason == Some(DisableReason::AdminDisabled) {
        offered(choices.drop_last())
    } else {
        offered(choices.drop_last()).push(choices.last())
    }
}

/// The values that a sequence of references refers to.
pub open spec fn derefs(rs: Seq<&LLMInfo>) -> Seq<LLMInfo> {
    rs.map_values(|r: &LLMInfo| *r)
}

pub(crate) fn push_all<'a>(out: &mut Vec<&'a LLMInfo>, items: &'a Vec<LLMInfo>)
    ensures
        derefs(final(out)@) == derefs(old(out)@) + items@,
{
    let ghost start = derefs(out@);
    let mut i: usize = 0;
    while i < items.len()
        invariant
            i <= items@.len(),
            derefs(out@) == start + items@.take(i as int),
        decreases items@.len() - i,
    {
        let ghost prev = out@;
        out.push(&items[i]);
        proof {
            assert(out@ == prev.push(&items@[i as int]));
            assert(derefs(out@) =~= derefs(prev).push(items@[i as int]));
            assert(items@.take(i + 1) =~= items@.take(i as int).push(items@[i as int]));
            assert(derefs(out@) =~= start + items@.take(i + 1));
        }
        i = i + 1;
    }
    proof {
        assert(items@.take(items@.len() as int) =~= items@);
    }
}

/// `a` comes before `b` in the order of `str` (character by character, a prefix first).
pub open spec fn seq_lt(a: Seq<char>, b: Seq<char>) -> bool
    decreases a.len(),
{
    if a.len() == 0 {
        b.len() > 0
    } else if b.len() == 0 {
        false
    } else if a[0] != b[0] {
        (a[0] as int) < (b[0] as int)
    } else {
        seq_lt(a.drop_first(), b.drop_first())
    }
}

proof fn lemma_seq_lt_trichotomy(a: Seq<char>, b: Seq<char>)
    ensures
        a == b || seq_lt(a, b) || seq_lt(b, a),
        !(seq_lt(a, b) && seq_lt(b, a)),
        !seq_lt(a, a),
    decreases a.len(),
{
    if a.len() > 0 && b.len() > 0 && a[0] == b[0] {
        lemma_seq_lt_trichotomy(a.drop_first(), b.drop_first());
        if a.drop_first() == b.drop_first() {
            assert(a.len() == b.len());
            assert forall|k: int| 0 <= k < a.len() implies a[k] == b[k] by {
                if k > 0 {
                    assert(a[k] == a.drop_first()[k - 1]);
                    assert(b[k] == b.drop_first()[k - 1]);
                }
            }
            assert(a =~= b);
        }
    }
    if a.len() > 0 {
        lemma_seq_lt_trichotomy(a.drop_first(), a.drop_first());
    }
    if a.len() == 0 && b.len() == 0 {
        assert(a =~= b);
    }
}

proof fn lemma_seq_lt_transitive(a: Seq<char>, b: Seq<char>, c: Seq<char>)
    requires
        seq_lt(a, b),
        seq_lt(b, c),
    ensures
        seq_lt(a, c),
    decreases a.len(),
{
    if a.len() > 0 && b.len() > 0 && c.len() > 0 && a[0] == b[0] && b[0] == c[0] {
        lemma_seq_lt_transitive(a.drop_first(), b.drop_first(), c.drop_first());
    }
}

/// Whether `a` comes before `b`; see [`seq_lt`].
fn str_lt(a: &str, b: &str) -> (r: bool)
    ensures
        r == seq_lt(a@, b@),
{
    let n = a.unicode_len();
    let m = b.unicode_len();
    let mut i: usize = 0;
    proof {
        assert(a@.skip(0) =~= a@);
        assert(b@.skip(0) =~= b@);
    }
    while i < n && i < m
        invariant
            n == a@.len(),
            m == b@.len(),
            i <= n,
            i <= m,
            seq_lt(a@, b@) == seq_lt(a@.skip(i as int), b@.skip(i as int)),
        decreases n - i,
    {
        let x = a.get_char(i);
        let y = b.get_char(i);
        proof {
            assert(a@.skip(i as int)[0] == x);
            assert(b@.skip(i as int)[0] == y);
            assert(a@.skip(i as int).drop_first() =~= a@.skip(i + 1));
            assert(b@.skip(i as int).drop_first() =~= b@.skip(i + 1));
        }
        if x != y {
            return (x as u32) < (y as u32);
        }
        i = i + 1;
    }
    i < m
}

/// The views of some strings.
pub open spec fn names_of(v: Seq<String>) -> Seq<Seq<char>> {
    v.map_values(|s: String| s@)
}

/// `names` is strictly increasing.
pub open spec fn strictly_sorted(names: Seq<Seq<char>>) -> bool {
    forall|i: int, j: int| 0 <= i < j < names.len() ==> seq_lt(#[trigger] names[i], #[trigger] names[j])
}

/// The distinct base names of some models, in increasing order.
pub fn dedupe_model_display_names(choices: &[&LLMInfo]) -> (r: Vec<String>)
    ensures
        strictly_sorted(names_of(r@)),
        forall|n: Seq<char>|
            #[trigger] names_of(r@).contains(n) <==> exists|i: int|
                0 <= i < choices@.len() && (#[trigger] choices@[i]).base_model_name@ == n,
{
    let mut out: Vec<String> = Vec::new();
    let mut i: usize = 0;
    while i < choices.len()
        invariant
            i <= choices@.len(),
            strictly_sorted(names_of(out@)),
            forall|n: Seq<char>|
                #[trigger] names_of(out@).contains(n) <==> exists|k: int|
                    0 <= k < i && (#[trigger] choices@[k]).base_model_name@ == n,
        decreases choices@.len() - i,
    {
        let name = choices[i].base_model_name.as_str();
        let ghost before = names_of(out@);
        // The first position whose name does not come before `name`.
        let mut p: usize = 0;
        while p < out.len() && str_lt(out[p].as_str(), name)
            invariant
                p <= out@.len(),
                before == names_of(out@),
                forall|k: int| 0 <= k < p ==> seq_lt(#[trigger] before[k], name@),
            decreases out@.len() - p,
        {
            p = p + 1;
        }
        let present = p < out.len() && crate::text::str_eq(out[p].as_str(), name);
        if !present {
            let ghost p_ = p as int;
            proof {
                assert forall|k: int| p_ <= k < before.len() implies seq_lt(name@, #[trigger] before[k]) by {
                    lemma_seq_lt_trichotomy(before[p_], name@);
                    if k > p_ {
                        lemma_seq_lt_trichotomy(before[p_], name@);
                        if before[p_] == name@ {
                        } else {
                            lemma_seq_lt_transitive(name@, before[p_], before[k]);
                        }
                    }
                }
            }
            out.insert(p, String::from_str(name));
            proof {
                let after = names_of(out@);
                assert(after =~= before.insert(p_, name@));
                assert forall|a: int, b: int| 0 <= a < b < after.len() implies seq_lt(
                    #[trigger] after[a],
                    #[trigger] after[b],
                ) by {
                    if b < p_ {
                    } else if a < p_ && b == p_ {
                    } else if a < p_ && b > p_ {
                        assert(after[b] == before[b - 1]);
                        assert(seq_lt(name@, before[b - 1]));
                        lemma_seq_lt_transitive(before[a], name@, before[b - 1]);
                    } else if a == p_ {
                        assert(after[b] == before[b - 1]);
                    } else {
                        assert(after[a] == before[a - 1]);
                        assert(after[b] == before[b - 1]);
                    }
                }
                assert forall|n: Seq<char>| #[trigger] after.contains(n) <==> (before.contains(n) || n == name@) by {
                    if after.contains(n) {
                        let k = choose|k: int| 0 <= k < after.len() && after[k] == n;
                        if k < p_ {
                            assert(before[k] == n);
                        } else if k > p_ {
                            assert(before[k - 1] == n);
                        }
                    }
                    if before.contains(n) {
                        let k = choose|k: int| 0 <= k < before.len() && before[k] == n;
                        if k < p_ {
                            assert(after[k] == n);
                        } else {
                            assert(after[k + 1] == n);
                        }
                    }
                    if n == name@ {
                        assert(after[p_] == n);
                    }
                }
            }
        } else {
            proof {
                assert(before[p as int] == name@);
                assert(before.contains(name@));
            }
        }
        proof {
            let now = names_of(out@);
            assert forall|n: Seq<char>| #[trigger] now.contains(n) <==> exists|k: int|
                0 <= k < i + 1 && (#[trigger] choices@[k]).base_model_name@ == n by {
                if n == name@ {
                    assert(choices@[i as int].base_model_name@ == n);
                }
                if exists|k: int| 0 <= k < i + 1 && (#[trigger] choices@[k]).base_model_name@ == n {
                    let k = choose|k: int| 0 <= k < i + 1 && (#[trigger] choices@[k]).base_model_name@ == n;
                    if k < i {
                        assert(before.contains(n));
                    }
                }
                if before.contains(n) {
                    assert(exists|k: int| 0 <= k < i && (#[trigger] choices@[k]).base_model_name@ == n);
                }
            }
        }
        i = i + 1;
    }
    out
}

pub(crate) proof fn lemma_first_usable_exists(choices: Seq<LLMInfo>, keys: ApiKeyPresence, i: int)
    requires
        0 <= i < choices.len(),
        usable_spec(choices[i], keys),
    ensures
        first_usable(choices, keys) matches Some(x) && usable_spec(x, keys),
    decreases i,
{
    if forall|j: int| 0 <= j < i ==> !usable_spec(#[trigger] choices[j], keys) {
        assert(is_first_usable(choices, keys, i));
        lemma_first_usable_unique(choices, keys, i);
    } else {
        let j = choose|j: int| 0 <= j < i && !!usable_spec(#[trigger] choices[j], keys);
        lemma_first_usable_exists(choices, keys, j);
    }
}

/// The user's own key is used for OpenAI, Anthropic and Google models exactly when the key for
/// that provider is present, and never for xAI or an unknown provider; so, with the key
/// present, a model of that provider held back only for an upgrade is usable.
pub proof fn lemma_keys_follow_their_provider(keys: ApiKeyPresence)
    ensures
        has_key_spec(LLMProvider::OpenAI, keys) == keys.openai,
        has_key_spec(LLMProvider::Anthropic, keys) == keys.anthropic,
        has_key_spec(LLMProvider::Google, keys) == keys.google,
        !has_key_spec(LLMProvider::Xai, keys),
        !has_key_spec(LLMProvider::Unknown, keys),
        keys.openai ==> is_usable_spec(
            Some(DisableReason::RequiresUpgrade),
            has_key_spec(LLMProvider::OpenAI, keys),
        ),
        keys.anthropic ==> is_usable_spec(
            Some(DisableReason::RequiresUpgrade),
            has_key_spec(LLMProvider::Anthropic, keys),
        ),
        keys.google ==> is_usable_spec(
            Some(DisableReason::RequiresUpgrade),
            has_key_spec(LLMProvider::Google, keys),
        ),
{
}

} // verus!
