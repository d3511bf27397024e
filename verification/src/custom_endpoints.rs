//! Models served by the user's own OpenAI-compatible endpoints, and the catalogue entries
//! they become.
use vstd::prelude::*;
use vstd::string::*;

use crate::llm_catalog::LLMInfo;
use crate::llms::{LLMContextWindow, LLMModelHost, LLMProvider, RoutingHostConfig};
use crate::text::{all_ws, is_blank};

verus! {

/// A model served by a custom endpoint, as the user configured it.
#[derive(Debug, Clone, PartialEq, Eq)]
pub struct CustomEndpointModel {
    pub name: String,
    pub alias: Option<String>,
    /// The key that identifies the model; it becomes the model's id.
    pub config_key: String,
}

impl CustomEndpointModel {
    /// The label of the model: its alias when it has one, else its name.
    pub open spec fn label_spec(self) -> Seq<char> {
        match self.alias {
            Some(a) => a@,
            None => self.name@,
        }
    }

    /// The label of the model; see [`CustomEndpointModel::label_spec`].
    pub fn display_label(&self) -> (r: &str)
        ensures
            r@ == self.label_spec(),
    {
        match &self.alias {
            Some(a) => a.as_str(),
            None => self.name.as_str(),
        }
    }
}

/// An OpenAI-compatible endpoint that the user configured, with its models.
#[derive(Debug, Clone, PartialEq, Eq)]
pub struct CustomEndpoint {
    pub name: String,
    pub url: String,
    pub api_key: String,
    pub models: Vec<CustomEndpointModel>,
}

/// An endpoint is offered once it has a URL and a key (not blank).
pub open spec fn endpoint_ready(e: CustomEndpoint) -> bool {
    !all_ws(e.url@) && !all_ws(e.api_key@)
}

/// A model of an endpoint is offered once it has a name and a key (not blank).
pub open spec fn model_complete(m: CustomEndpointModel) -> bool {
    !all_ws(m.name@) && !all_ws(m.config_key@)
}

/// What the catalogue lists of each offered model of one endpoint, in order: its label, its
/// id, and the endpoint's name.
pub open spec fn model_entries(models: Seq<CustomEndpointModel>, endpoint: Seq<char>) -> Seq<
    (Seq<char>, Seq<char>, Seq<char>),
>
    decreases models.len(),
{
    if models.len() == 0 {
        Seq::empty()
    } else {
        let rest = model_entries(models.drop_last(), endpoint);
        let m = models.last();
        if model_complete(m) {
            rest.push((m.label_spec(), m.config_key@, endpoint))
        } else {
            rest
        }
    }
}

/// What the catalogue lists of the offered models of all offered endpoints, in order.
pub open spec fn custom_entries(endpoints: Seq<CustomEndpoint>) -> Seq<(Seq<char>, Seq<char>, Seq<char>)>
    decreases endpoints.len(),
{
    if endpoints.len() == 0 {
        Seq::empty()
    } else {
        let e = endpoints.last();
        custom_entries(endpoints.drop_last()) + if endpoint_ready(e) {
            model_entries(e.models@, e.name@)
        } else {
            Seq::empty()
        }
    }
}

/// `info` is the catalogue entry of a custom-endpoint model with this label, id and endpoint
/// name: described as "Custom · <endpoint>", with vision, routed to the custom endpoint.
pub open spec fn is_custom_info(info: LLMInfo, entry: (Seq<char>, Seq<char>, Seq<char>)) -> bool {
    &&& info.display_name@ == entry.0
    &&& info.base_model_name@ == entry.0
    &&& info.id@ == entry.1
    &&& info.description matches Some(d) && d@ == "Custom · "@ + entry.2
    &&& info.reasoning_level is None
    &&& info.disable_reason is None
    &&& info.vision_supported
    &&& info.provider == LLMProvider::Unknown
    &&& info.host_configs@ == seq![
        RoutingHostConfig { enabled: true, model_routing_host: LLMModelHost::CustomEndpoint },
    ]
    &&& info.context_window == LLMContextWindow { is_configurable: false, min: 0, max: 0, default_max: 0 }
    &&& !info.is_custom_router
}

/// `infos` lists exactly `entries`, in order.
pub open spec fn lists_entries(infos: Seq<LLMInfo>, entries: Seq<(Seq<char>, Seq<char>, Seq<char>)>) -> bool {
    &&& infos.len() == entries.len()
    &&& forall|i: int| 0 <= i < infos.len() ==> is_custom_info(#[trigger] infos[i], entries[i])
}

fn custom_llm_info_from(endpoint: &CustomEndpoint, model: &CustomEndpointModel) -> (r: LLMInfo)
    ensures
        is_custom_info(r, (model.label_spec(), model.config_key@, endpoint.name@)),
{
    let label = model.display_label();
    let mut description = String::from_str("Custom · ");
    description.append(endpoint.name.as_str());
    let mut host_configs: Vec<RoutingHostConfig> = Vec::new();
    host_configs.push(RoutingHostConfig { enabled: true, model_routing_host: LLMModelHost::CustomEndpoint });
    proof {
        reveal_strlit("Custom · ");
    }
    LLMInfo {
        display_name: String::from_str(label),
        base_model_name: String::from_str(label),
        id: model.config_key.clone(),
        reasoning_level: None,
        description: Some(description),
        disable_reason: None,
        vision_supported: true,
        provider: LLMProvider::Unknown,
        host_configs,
        context_window: LLMContextWindow { is_configurable: false, min: 0, max: 0, default_max: 0 },
        is_custom_router: false,
    }
}

/// The catalogue entries of the user's custom-endpoint models: for each endpoint with a URL
/// and a key, each of its models with a name and a key, in order.
pub fn build_custom_llm_infos(endpoints: &[CustomEndpoint]) -> (r: Vec<LLMInfo>)
    ensures
        lists_entries(r@, custom_entries(endpoints@)),
{
    let mut out: Vec<LLMInfo> = Vec::new();
    let mut i: usize = 0;
    while i < endpoints.len()
        invariant
            i <= endpoints@.len(),
            lists_entries(out@, custom_entries(endpoints@.take(i as int))),
        decreases endpoints@.len() - i,
    {
        let endpoint = &endpoints[i];
        proof {
            assert(endpoints@.take(i + 1).drop_last() =~= endpoints@.take(i as int));
        }
        if !is_blank(endpoint.url.as_str()) && !is_blank(endpoint.api_key.as_str()) {
            let ghost base = out@;
            let ghost prefix = custom_entries(endpoints@.take(i as int));
            let mut j: usize = 0;
            while j < endpoint.models.len()
                invariant
                    j <= endpoint.models@.len(),
                    base.len() == prefix.len(),
                    lists_entries(out@, prefix + model_entries(endpoint.models@.take(j as int), endpoint.name@)),
                decreases endpoint.models@.len() - j,
            {
                let model = &endpoint.models[j];
                proof {
                    assert(endpoint.models@.take(j + 1).drop_last() =~= endpoint.models@.take(j as int));
                }
                if !is_blank(model.name.as_str()) && !is_blank(model.config_key.as_str()) {
                    let info = custom_llm_info_from(endpoint, model);
                    let ghost prev = out@;
                    out.push(info);
                    proof {
                        let es = prefix + model_entries(endpoint.models@.take(j + 1), endpoint.name@);
                        let old_es = prefix + model_entries(endpoint.models@.take(j as int), endpoint.name@);
                        assert(es =~= old_es.push((model.label_spec(), model.config_key@, endpoint.name@)));
                        assert forall|k: int| 0 <= k < out@.len() implies is_custom_info(#[trigger] out@[k], es[k]) by {
                            if k < prev.len() {
                                assert(out@[k] == prev[k]);
                            }
                        }
                    }
                } else {
                    proof {
                        assert(prefix + model_entries(endpoint.models@.take(j + 1), endpoint.name@) =~= prefix
                            + model_entries(endpoint.models@.take(j as int), endpoint.name@));
                    }
                }
                j = j + 1;
            }
            proof {
                assert(endpoint.models@.take(endpoint.models@.len() as int) =~= endpoint.models@);
            }
        } else {
            proof {
                assert(custom_entries(endpoints@.take(i + 1)) =~= custom_entries(endpoints@.take(i as int)));
            }
        }
        i = i + 1;
    }
    proof {
        assert(endpoints@.take(endpoints@.len() as int) =~= endpoints@);
    }
    out
}

} // verus!
