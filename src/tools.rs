//! The tools that the agent offers the model.
use vstd::prelude::*;
use crate::dispatch::{ToolDefinition, ToolParameter};

verus! {

/// The one argument of every tool here: the text the tool works on.
pub const USER_INPUT: &'static str = "user_input";

/// Generates a Kubernetes manifest from a request in words and deploys it.
pub struct GenerateAndDeployResource;

/// Applies a Kubernetes manifest given as YAML text.
pub struct ApplyYamlToK8s;

/// A definition with one string parameter, `user_input`.
fn single_input_tool(name: &str, description: &str, input_description: &str) -> (r: ToolDefinition)
    ensures
        r.name@ == name@,
        r.description@ == description@,
        r.parameters@.len() == 1,
        r.parameters@[0].name@ == USER_INPUT@,
        r.parameters@[0].description@ == input_description@,
{
    let mut parameters: Vec<ToolParameter> = Vec::new();
    parameters.push(ToolParameter {
        name: String::from_str(USER_INPUT),
        description: String::from_str(input_description),
    });
    ToolDefinition {
        name: String::from_str(name),
        description: String::from_str(description),
        parameters,
    }
}

impl GenerateAndDeployResource {
    pub const NAME: &'static str = "generate_and_deploy_resource";

    pub fn definition(&self) -> (r: ToolDefinition)
        ensures
            r.name@ == Self::NAME@,
            r.description@ == "生成 K8S YAML 并部署资源"@,
            r.parameters@.len() == 1,
            r.parameters@[0].name@ == USER_INPUT@,
            r.parameters@[0].description@ == "用户输出的文本内容，要求包含资源类型和镜像"@,
    {
        single_input_tool(
            Self::NAME,
            "生成 K8S YAML 并部署资源",
            "用户输出的文本内容，要求包含资源类型和镜像",
        )
    }
}

impl ApplyYamlToK8s {
    pub const NAME: &'static str = "apply_yaml_to_k8s";

    pub fn definition(&self) -> (r: ToolDefinition)
        ensures
            r.name@ == Self::NAME@,
            r.description@ == "基于YAML文件执行K8S资源部署"@,
            r.parameters@.len() == 1,
            r.parameters@[0].name@ == USER_INPUT@,
            r.parameters@[0].description@ == "yaml文件内容"@,
    {
        single_input_tool(Self::NAME, "基于YAML文件执行K8S资源部署", "yaml文件内容")
    }
}

} // verus!
