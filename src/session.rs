//! Session configuration, the agent's tool catalog, and the request that
//! opens a planning session.
use vstd::prelude::*;

use crate::descriptor::{
    build_descriptors, describes, first_fault, names_unique, ApiToolSpec, DescriptorError,
    FunctionToolSpec, ParameterSpec, ToolDescriptor, ToolSpec,
};
use crate::text::same_text;

verus! {

/// What the caller asks of the agent.
#[derive(Debug)]
pub struct ClientPrompt {
    pub input: String,
}

/// The settings a deployment supplies once, at startup.
#[derive(Debug)]
pub struct AgentConfig {
    pub enable_trace: bool,
    pub model_id: String,
    pub ice_cream_maker_target: String,
    pub waiter_target: String,
}

/// A required setting that is absent.
#[derive(Debug, PartialEq, Eq, Structural, Clone, Copy)]
pub enum ConfigError {
    MissingModelId,
    MissingIceCreamMakerTarget,
    MissingWaiterTarget,
}

/// Tracing is on unless the setting reads exactly `false`.
pub open spec fn trace_enabled(setting: Option<String>) -> bool {
    match setting {
        Some(v) => v@ != "false"@,
        None => true,
    }
}

/// The configuration made of the given settings, or the first one missing, in
/// the order model, ice cream maker, waiter.
pub open spec fn config_of(
    enable_trace: Option<String>,
    model_id: Option<String>,
    ice_cream_maker_target: Option<String>,
    waiter_target: Option<String>,
    r: Result<AgentConfig, ConfigError>,
) -> bool {
    if model_id is None {
        r == Err::<AgentConfig, ConfigError>(ConfigError::MissingModelId)
    } else if ice_cream_maker_target is None {
        r == Err::<AgentConfig, ConfigError>(ConfigError::MissingIceCreamMakerTarget)
    } else if waiter_target is None {
        r == Err::<AgentConfig, ConfigError>(ConfigError::MissingWaiterTarget)
    } else {
        r == Ok::<AgentConfig, ConfigError>(
            AgentConfig {
                enable_trace: trace_enabled(enable_trace),
                model_id: model_id->0,
                ice_cream_maker_target: ice_cream_maker_target->0,
                waiter_target: waiter_target->0,
            },
        )
    }
}

impl AgentConfig {
    /// Assembles the configuration from raw settings; a missing model or
    /// executor target is an error, a missing or unreadable trace flag means on.
    pub fn from_settings(
        enable_trace: Option<String>,
        model_id: Option<String>,
        ice_cream_maker_target: Option<String>,
        waiter_target: Option<String>,
    ) -> (r: Result<AgentConfig, ConfigError>)
        ensures
            config_of(enable_trace, model_id, ice_cream_maker_target, waiter_target, r),
    {
        let trace = match &enable_trace {
            Some(v) => !same_text(v.as_str(), "false"),
            None => true,
        };
        let model_id = match model_id {
            Some(m) => m,
            None => return Err(ConfigError::MissingModelId),
        };
        let ice_cream_maker_target = match ice_cream_maker_target {
            Some(t) => t,
            None => return Err(ConfigError::MissingIceCreamMakerTarget),
        };
        let waiter_target = match waiter_target {
            Some(t) => t,
            None => return Err(ConfigError::MissingWaiterTarget),
        };
        Ok(AgentConfig { enable_trace: trace, model_id, ice_cream_maker_target, waiter_target })
    }
}

/// The instructions that tell the agent what it should do and how it should
/// interact with users.
pub const AGENT_INSTRUCTION: &'static str = r#"
    You are an ice cream making assistant in charge of operating the requests for an ice cream shop.
    Recommended flow of instructions when a client request comes in is:
    1. Identify client's name from the request
    2. Create a new order with client's name
    3. Identify flavors to add from the request
    4. If any flavor needs to be added, then add those flavors to the client's order
    5. Identify flavors to remove from the request
    6. If any flavor needs to be removed, then delete those flavors from the client's order
    7. If a unavailable flavor is requested, explain it is not available and omit it
    8. Respond appropriately to requests, including:
        - Confirming when an ice cream has been prepared
        - Explaining if a requested flavor isn't available
        - Rejecting the request if the flavor request is ambiguous
        - Handling one flavor request at a time
    9. Prepare each ice cream flavor from the order

    Extra Guidelines:
    - You can prepare these flavors:
        1. Vanilla
        2. Chocolate
        3. Strawberry
        4. Mint Chocolate Chip
        5. Cookie Dough
    - You can take up to 5 flavors on a given order, if there are more the order should be split.
    - When someone requests a flavor not in this list, explain which flavors are available instead.
    - You cannot prepare ice cream flavors if you haven't added those flavors to the given order first.

    Tone: Always maintain a friendly, helpful tone while focusing on the core task of ice cream preparation.

    <example>
        <client>Hi, my name is Pedro, can I take a Vanilla ice cream, two of Chocolate and last one, hmm, make it Cookie Dough</client>
        <rationale>
            1. Client's name is Pedro
            2. Flavors to add to order are:
                - Vanilla
                - Chocolate
                - Chocolate
                - Cookie Dough
            3. Prepare Vanilla ice cream
            4. Prepare Chocolate ice cream
            5. Prepare Chocolate ice cream
            6. Prepare Cookie Dough ice cream
            7. Give ice creams to client with a friendly tone
        </rationale>
    </example>
"#;

/// The name of the tool that drives the ice cream maker.
pub const ICE_CREAM_MAKER: &'static str = "IceCreamMaker";

/// The name of the tool that takes orders.
pub const WAITER: &'static str = "Waiter";

/// `specs` is the agent's catalog: the ice cream maker, a function tool with
/// one required text parameter `flavor`, then the waiter, an API tool with
/// the given schema.
pub open spec fn is_agent_catalog(specs: Seq<ToolSpec>, config: AgentConfig, schema: String) -> bool {
    &&& specs.len() == 2
    &&& specs[0] matches ToolSpec::Function(f) && {
        &&& f.name matches Some(n) && n@ == ICE_CREAM_MAKER@
        &&& f.executor == Some(config.ice_cream_maker_target)
        &&& f.function_name matches Some(n) && n@ == "PrepareIceCream"@
        &&& f.parameters@.len() == 1
        &&& f.parameters@[0].name@ == "flavor"@
        &&& f.parameters@[0].param_type matches Some(t) && t@ == "string"@
        &&& f.parameters@[0].required
    }
    &&& specs[1] matches ToolSpec::Api(a) && {
        &&& a.name matches Some(n) && n@ == WAITER@
        &&& a.executor == Some(config.waiter_target)
        &&& a.schema == schema
    }
}

/// The agent's catalog of tools; it always yields descriptors.
pub fn agent_catalog(config: &AgentConfig, waiter_schema: String) -> (r: Vec<ToolSpec>)
    ensures
        is_agent_catalog(r@, *config, waiter_schema),
        first_fault(r@, 2) is None,
{
    let mut parameters: Vec<ParameterSpec> = Vec::new();
    parameters.push(
        ParameterSpec {
            name: "flavor".to_owned(),
            description: "Flavor requested to be made with the ice cream maker machine".to_owned(),
            param_type: Some("string".to_owned()),
            required: true,
        },
    );
    let maker = FunctionToolSpec {
        name: Some(ICE_CREAM_MAKER.to_owned()),
        description: "ActionGroup that allows to manipulate the ice cream maker".to_owned(),
        executor: Some(config.ice_cream_maker_target.clone()),
        function_name: Some("PrepareIceCream".to_owned()),
        function_description:
            "Manages the ice cream maker machine to make the ice creams of a given flavor".to_owned(),
        parameters,
    };
    let waiter = ApiToolSpec {
        name: Some(WAITER.to_owned()),
        description:
            "ActionGroup that allows to take orders and ice cream flavors to add to orders or remove from orders".to_owned(),
        executor: Some(config.waiter_target.clone()),
        schema: waiter_schema,
    };
    let mut specs: Vec<ToolSpec> = Vec::new();
    specs.push(ToolSpec::Function(maker));
    specs.push(ToolSpec::Api(waiter));
    proof {
        reveal_strlit("IceCreamMaker");
        reveal_strlit("Waiter");
        let ps = specs@[0]->Function_0.parameters@;
        assert(crate::descriptor::first_untyped(ps.drop_last()) is None);
        assert(crate::descriptor::first_untyped(ps) is None);
        assert(first_fault(specs@, 0) is None);
        assert(first_fault(specs@, 1) is None);
        assert(ICE_CREAM_MAKER@.len() != WAITER@.len());
        assert(!crate::descriptor::name_taken(specs@, 1));
    }
    specs
}

/// Everything the planning service needs to open a session.
#[derive(Debug)]
pub struct SessionRequest {
    pub session_id: String,
    pub instruction: String,
    pub input_text: String,
    pub enable_trace: bool,
    pub model_id: String,
    pub tools: Vec<ToolDescriptor>,
}

impl SessionRequest {
    /// The request that opens session `session_id` for `prompt`, with the
    /// agent's instruction and a descriptor for each tool of `catalog`; it
    /// fails as `build_descriptors` does on the catalog.
    pub fn new(
        config: &AgentConfig,
        session_id: String,
        prompt: ClientPrompt,
        catalog: &Vec<ToolSpec>,
    ) -> (r: Result<SessionRequest, DescriptorError>)
        ensures
            match r {
                Ok(s) => {
                    &&& first_fault(catalog@, catalog@.len() as int) is None
                    &&& s.session_id == session_id
                    &&& s.instruction@ == AGENT_INSTRUCTION@
                    &&& s.input_text == prompt.input
                    &&& s.enable_trace == config.enable_trace
                    &&& s.model_id == config.model_id
                    &&& s.tools@.len() == catalog@.len()
                    &&& forall|i: int|
                        0 <= i < s.tools@.len() ==> describes(#[trigger] s.tools@[i], catalog@[i])
                    &&& names_unique(s.tools@)
                },
                Err(e) => first_fault(catalog@, catalog@.len() as int) == Some(e),
            },
    {
        let tools = build_descriptors(catalog)?;
        Ok(
            SessionRequest {
                session_id,
                instruction: AGENT_INSTRUCTION.to_owned(),
                input_text: prompt.input,
                enable_trace: config.enable_trace,
                model_id: config.model_id.clone(),
                tools,
            },
        )
    }
}

} // verus!
