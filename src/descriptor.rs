//! Tool specifications and the descriptors built from them for a session.
use vstd::prelude::*;

use crate::protocol::{decodes_to, ParameterType};

verus! {

/// One parameter of a function-style tool, as the catalog states it.
#[derive(Debug)]
pub struct ParameterSpec {
    pub name: String,
    pub description: String,
    pub param_type: Option<String>,
    pub required: bool,
}

/// A tool served by direct function calls.
#[derive(Debug)]
pub struct FunctionToolSpec {
    pub name: Option<String>,
    pub description: String,
    pub executor: Option<String>,
    pub function_name: Option<String>,
    pub function_description: String,
    pub parameters: Vec<ParameterSpec>,
}

/// A tool served through REST-style calls described by a schema document.
#[derive(Debug)]
pub struct ApiToolSpec {
    pub name: Option<String>,
    pub description: String,
    pub executor: Option<String>,
    pub schema: String,
}

/// A tool of the catalog, in either shape.
#[derive(Debug)]
pub enum ToolSpec {
    Function(FunctionToolSpec),
    Api(ApiToolSpec),
}

/// A parameter as the planner sees it.
#[derive(Debug)]
pub struct ParameterDescriptor {
    pub name: String,
    pub description: String,
    pub param_type: ParameterType,
    pub required: bool,
}

/// A function-style tool as the planner sees it.
#[derive(Debug)]
pub struct FunctionDescriptor {
    pub name: String,
    pub description: String,
    pub executor: String,
    pub function_name: String,
    pub function_description: String,
    pub parameters: Vec<ParameterDescriptor>,
}

/// An API-style tool as the planner sees it; the schema is passed verbatim.
#[derive(Debug)]
pub struct ApiDescriptor {
    pub name: String,
    pub description: String,
    pub executor: String,
    pub schema: String,
}

/// A tool as the planner sees it.
#[derive(Debug)]
pub enum ToolDescriptor {
    Function(FunctionDescriptor),
    Api(ApiDescriptor),
}

/// Why a catalog could not be turned into descriptors; `tool` and
/// `parameter` are positions in the catalog and in the tool's parameters.
#[derive(Debug, PartialEq, Eq, Structural, Clone, Copy)]
pub enum DescriptorError {
    MissingName { tool: usize },
    MissingExecutor { tool: usize },
    MissingFunctionName { tool: usize },
    MissingParameterType { tool: usize, parameter: usize },
    DuplicateName { tool: usize },
}

/// The name a tool specification gives, if any.
pub open spec fn spec_name(t: ToolSpec) -> Option<String> {
    match t {
        ToolSpec::Function(f) => f.name,
        ToolSpec::Api(a) => a.name,
    }
}

/// The name of a descriptor.
pub open spec fn descriptor_name(d: ToolDescriptor) -> String {
    match d {
        ToolDescriptor::Function(f) => f.name,
        ToolDescriptor::Api(a) => a.name,
    }
}

/// The position of the first parameter without a declared type, if any.
pub open spec fn first_untyped(ps: Seq<ParameterSpec>) -> Option<int>
    decreases ps.len(),
{
    if ps.len() == 0 {
        None
    } else {
        match first_untyped(ps.drop_last()) {
            Some(k) => Some(k),
            None => if ps.last().param_type is None {
                Some(ps.len() - 1)
            } else {
                None
            },
        }
    }
}

/// What is missing from the tool at position `i`, on its own, checked in the
/// order name, executor, function name, parameter types.
pub open spec fn tool_fault(t: ToolSpec, i: int) -> Option<DescriptorError> {
    match t {
        ToolSpec::Function(f) => if f.name is None {
            Some(DescriptorError::MissingName { tool: i as usize })
        } else if f.executor is None {
            Some(DescriptorError::MissingExecutor { tool: i as usize })
        } else if f.function_name is None {
            Some(DescriptorError::MissingFunctionName { tool: i as usize })
        } else {
            match first_untyped(f.parameters@) {
                Some(k) => Some(
                    DescriptorError::MissingParameterType { tool: i as usize, parameter: k as usize },
                ),
                None => None,
            }
        },
        ToolSpec::Api(a) => if a.name is None {
            Some(DescriptorError::MissingName { tool: i as usize })
        } else if a.executor is None {
            Some(DescriptorError::MissingExecutor { tool: i as usize })
        } else {
            None
        },
    }
}

/// Whether a tool before position `i` has the same name as the tool at `i`.
pub open spec fn name_taken(specs: Seq<ToolSpec>, i: int) -> bool {
    exists|j: int|
        0 <= j < i && #[trigger] spec_name(specs[j]) is Some && spec_name(specs[i]) is Some
            && spec_name(specs[j])->0@ == spec_name(specs[i])->0@
}

/// The fault of the tool at position `i`, duplicates of earlier names included.
pub open spec fn fault_at(specs: Seq<ToolSpec>, i: int) -> Option<DescriptorError> {
    match tool_fault(specs[i], i) {
        Some(e) => Some(e),
        None => if name_taken(specs, i) {
            Some(DescriptorError::DuplicateName { tool: i as usize })
        } else {
            None
        },
    }
}

/// The first fault among the first `n` tools.
pub open spec fn first_fault(specs: Seq<ToolSpec>, n: int) -> Option<DescriptorError>
    decreases n,
{
    if n <= 0 {
        None
    } else {
        match first_fault(specs, n - 1) {
            Some(e) => Some(e),
            None => fault_at(specs, n - 1),
        }
    }
}

/// `d` describes the parameter `p`.
pub open spec fn describes_parameter(d: ParameterDescriptor, p: ParameterSpec) -> bool {
    &&& d.name == p.name
    &&& d.description == p.description
    &&& d.required == p.required
    &&& p.param_type matches Some(s) && decodes_to(s@, d.param_type)
}

/// `d` describes the tool `t`: same shape, and every field taken from `t`.
pub open spec fn describes(d: ToolDescriptor, t: ToolSpec) -> bool {
    match (d, t) {
        (ToolDescriptor::Function(d), ToolSpec::Function(f)) => {
            &&& f.name == Some(d.name)
            &&& d.description == f.description
            &&& f.executor == Some(d.executor)
            &&& f.function_name == Some(d.function_name)
            &&& d.function_description == f.function_description
            &&& d.parameters@.len() == f.parameters@.len()
            &&& forall|k: int|
                0 <= k < d.parameters@.len() ==> describes_parameter(
                    #[trigger] d.parameters@[k],
                    f.parameters@[k],
                )
        },
        (ToolDescriptor::Api(d), ToolSpec::Api(a)) => {
            &&& a.name == Some(d.name)
            &&& d.description == a.description
            &&& a.executor == Some(d.executor)
            &&& d.schema == a.schema
        },
        _ => false,
    }
}

/// No two descriptors share a name.
pub open spec fn names_unique(ds: Seq<ToolDescriptor>) -> bool {
    forall|i: int, j: int|
        0 <= i < j < ds.len() ==> #[trigger] descriptor_name(ds[i])@ != #[trigger] descriptor_name(
            ds[j],
        )@
}

fn describe_parameters(ps: &Vec<ParameterSpec>) -> (r: Result<
    Vec<ParameterDescriptor>,
    usize,
>)
    ensures
        match r {
            Ok(ds) => {
                &&& first_untyped(ps@) is None
                &&& ds@.len() == ps@.len()
                &&& forall|k: int|
                    0 <= k < ds@.len() ==> describes_parameter(#[trigger] ds@[k], ps@[k])
            },
            Err(k) => first_untyped(ps@) == Some(k as int),
        },
{
    let mut out: Vec<ParameterDescriptor> = Vec::new();
    let mut k: usize = 0;
    while k < ps.len()
        invariant
            k <= ps@.len(),
            first_untyped(ps@.take(k as int)) is None,
            out@.len() == k,
            forall|m: int| 0 <= m < k ==> describes_parameter(#[trigger] out@[m], ps@[m]),
        decreases ps@.len() - k,
    {
        let p = &ps[k];
        assert(ps@.take(k as int + 1).drop_last() == ps@.take(k as int));
        match &p.param_type {
            None => {
                proof {
                    lemma_untyped_prefix(ps@, k as int + 1);
                }
                return Err(k);
            },
            Some(s) => {
                let t = ParameterType::from(s.clone());
                out.push(
                    ParameterDescriptor {
                        name: p.name.clone(),
                        description: p.description.clone(),
                        param_type: t,
                        required: p.required,
                    },
                );
            },
        }
        k = k + 1;
    }
    assert(ps@.take(k as int) == ps@);
    Ok(out)
}

proof fn lemma_untyped_prefix(ps: Seq<ParameterSpec>, n: int)
    requires
        0 <= n <= ps.len(),
        first_untyped(ps.take(n)) is Some,
    ensures
        first_untyped(ps) == first_untyped(ps.take(n)),
    decreases ps.len() - n,
{
    if n < ps.len() {
        assert(ps.take(n + 1).drop_last() == ps.take(n));
        lemma_untyped_prefix(ps, n + 1);
    } else {
        assert(ps.take(n) == ps);
    }
}

/// Builds the descriptor of the tool at position `i`, or reports what it lacks.
fn describe_tool(t: &ToolSpec, i: usize) -> (r: Result<ToolDescriptor, DescriptorError>)
    ensures
        match r {
            Ok(d) => tool_fault(*t, i as int) is None && describes(d, *t),
            Err(e) => tool_fault(*t, i as int) == Some(e),
        },
{
    match t {
        ToolSpec::Function(f) => {
            let name = match &f.name {
                Some(n) => n.clone(),
                None => return Err(DescriptorError::MissingName { tool: i }),
            };
            let executor = match &f.executor {
                Some(x) => x.clone(),
                None => return Err(DescriptorError::MissingExecutor { tool: i }),
            };
            let function_name = match &f.function_name {
                Some(n) => n.clone(),
                None => return Err(DescriptorError::MissingFunctionName { tool: i }),
            };
            match describe_parameters(&f.parameters) {
                Ok(parameters) => Ok(
                    ToolDescriptor::Function(
                        FunctionDescriptor {
                            name,
                            description: f.description.clone(),
                            executor,
                            function_name,
                            function_description: f.function_description.clone(),
                            parameters,
                        },
                    ),
                ),
                Err(k) => Err(DescriptorError::MissingParameterType { tool: i, parameter: k }),
            }
        },
        ToolSpec::Api(a) => {
            let name = match &a.name {
                Some(n) => n.clone(),
                None => return Err(DescriptorError::MissingName { tool: i }),
            };
            let executor = match &a.executor {
                Some(x) => x.clone(),
                None => return Err(DescriptorError::MissingExecutor { tool: i }),
            };
            Ok(
                ToolDescriptor::Api(
                    ApiDescriptor {
                        name,
                        description: a.description.clone(),
                        executor,
                        schema: a.schema.clone(),
                    },
                ),
            )
        },
    }
}

impl ToolDescriptor {
    /// The descriptor's name.
    pub fn name(&self) -> (r: &String)
        ensures
            *r == descriptor_name(*self),
    {
        match self {
            ToolDescriptor::Function(f) => &f.name,
            ToolDescriptor::Api(a) => &a.name,
        }
    }
}

/// Turns a catalog into the descriptors of a session, one per tool and in
/// catalog order. The first tool, in catalog order, that lacks a required
/// field or repeats an earlier name makes the whole catalog fail.
pub fn build_descriptors(specs: &Vec<ToolSpec>) -> (r: Result<
    Vec<ToolDescriptor>,
    DescriptorError,
>)
    ensures
        match r {
            Ok(ds) => {
                &&& first_fault(specs@, specs@.len() as int) is None
                &&& ds@.len() == specs@.len()
                &&& forall|i: int| 0 <= i < ds@.len() ==> describes(#[trigger] ds@[i], specs@[i])
                &&& names_unique(ds@)
            },
            Err(e) => first_fault(specs@, specs@.len() as int) == Some(e),
        },
{
    let mut out: Vec<ToolDescriptor> = Vec::new();
    let mut i: usize = 0;
    while i < specs.len()
        invariant
            i <= specs@.len(),
            first_fault(specs@, i as int) is None,
            out@.len() == i,
            forall|j: int| 0 <= j < i ==> describes(#[trigger] out@[j], specs@[j]),
            names_unique(out@),
        decreases specs@.len() - i,
    {
        let d = match describe_tool(&specs[i], i) {
            Ok(d) => d,
            Err(e) => {
                proof {
                    lemma_fault_persists(specs@, i as int + 1, specs@.len() as int);
                }
                return Err(e);
            },
        };
        let mut j: usize = 0;
        while j < i
            invariant
                j <= i,
                i < specs@.len(),
                out@.len() == i,
                describes(d, specs@[i as int]),
                tool_fault(specs@[i as int], i as int) is None,
                first_fault(specs@, i as int) is None,
                forall|m: int| 0 <= m < i ==> describes(#[trigger] out@[m], specs@[m]),
                forall|m: int|
                    0 <= m < j ==> #[trigger] descriptor_name(out@[m])@ != descriptor_name(d)@,
            decreases i - j,
        {
            if *out[j].name() == *d.name() {
                proof {
                    assert(describes(out@[j as int], specs@[j as int]));
                    assert(spec_name(specs@[j as int]) is Some);
                    assert(describes(d, specs@[i as int]));
                    assert(spec_name(specs@[i as int]) is Some);
                    assert(name_taken(specs@, i as int));
                    assert(fault_at(specs@, i as int) == Some(
                        DescriptorError::DuplicateName { tool: i },
                    ));
                    assert(first_fault(specs@, i as int + 1) == Some(
                        DescriptorError::DuplicateName { tool: i },
                    ));
                    lemma_fault_persists(specs@, i as int + 1, specs@.len() as int);
                }
                return Err(DescriptorError::DuplicateName { tool: i });
            }
            j = j + 1;
        }
        proof {
            if name_taken(specs@, i as int) {
                let m = choose|m: int|
                    0 <= m < i && #[trigger] spec_name(specs@[m]) is Some && spec_name(
                        specs@[i as int],
                    ) is Some && spec_name(specs@[m])->0@ == spec_name(specs@[i as int])->0@;
                assert(describes(out@[m], specs@[m]));
                assert(descriptor_name(out@[m])@ != descriptor_name(d)@);
            }
        }
        out.push(d);
        i = i + 1;
    }
    Ok(out)
}

/// A fault among the first `n` tools stays the first fault of any longer prefix.
proof fn lemma_fault_persists(specs: Seq<ToolSpec>, n: int, m: int)
    requires
        0 <= n <= m,
        first_fault(specs, n) is Some,
    ensures
        first_fault(specs, m) == first_fault(specs, n),
    decreases m - n,
{
    if n < m {
        lemma_fault_persists(specs, n, m - 1);
    }
}

/// No catalog whose tools repeat a name yields descriptors: two tools at
/// positions `i < j` with the same name make the catalog fail.
pub proof fn lemma_duplicate_names_rejected(specs: Seq<ToolSpec>, i: int, j: int)
    requires
        0 <= i < j < specs.len(),
        spec_name(specs[i]) is Some,
        spec_name(specs[j]) is Some,
        spec_name(specs[i])->0@ == spec_name(specs[j])->0@,
    ensures
        first_fault(specs, specs.len() as int) is Some,
{
    assert(name_taken(specs, j));
    assert(first_fault(specs, j + 1) is Some);
    lemma_fault_persists(specs, j + 1, specs.len() as int);
}

} // verus!
