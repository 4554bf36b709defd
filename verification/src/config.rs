use vstd::prelude::*;
use crate::text::decimal_rep;
use crate::text::decimal_string;

verus! {

/// Launch-time description of the inference server subprocess.  Immutable
/// once the server has been spawned.
pub struct InferenceServerConfig {
    /// Path of the server executable.
    pub server_path: String,
    /// Path of the model weights handed to the server.
    pub model_path: String,
    /// Host the server binds; completion requests go here.
    pub host: String,
    /// Port the server binds.
    pub port: u16,
    /// Number of model layers offloaded to the GPU.
    pub gpu_layers: u32,
    /// Context window size in tokens.
    pub ctx_size: u32,
}

/// The stock configuration: paths of the default server build and model,
/// loopback host, and the caller's port.
pub fn default_llama(port: u16) -> (r: (String, String, String, u16))
    ensures
        r.0@ == "/home/andrea/llama.cpp/build/bin/llama-server"@,
        r.1@ == "/home/andrea/taunote/models/llama/Meta-Llama-3.1-8B-Instruct-Q6_K_L.gguf"@,
        r.2@ == "127.0.0.1"@,
        r.3 == port,
{
    (
        String::from_str("/home/andrea/llama.cpp/build/bin/llama-server"),
        String::from_str(
            "/home/andrea/taunote/models/llama/Meta-Llama-3.1-8B-Instruct-Q6_K_L.gguf",
        ),
        String::from_str("127.0.0.1"),
        port,
    )
}

/// The stock configuration as a config record: 35 GPU layers and a 4096-token
/// context window on the default paths.
pub fn default_config(port: u16) -> (c: InferenceServerConfig)
    ensures
        c.server_path@ == "/home/andrea/llama.cpp/build/bin/llama-server"@,
        c.model_path@ == "/home/andrea/taunote/models/llama/Meta-Llama-3.1-8B-Instruct-Q6_K_L.gguf"@,
        c.host@ == "127.0.0.1"@,
        c.port == port,
        c.gpu_layers == 35,
        c.ctx_size == 4096,
{
    let (server_path, model_path, host, port) = default_llama(port);
    InferenceServerConfig { server_path, model_path, host, port, gpu_layers: 35, ctx_size: 4096 }
}

/// The argument list the server executable is launched with: the model path,
/// the port, the GPU layer count, the context size, and the flag that
/// disables warm-up inference.
pub open spec fn server_args_spec(c: InferenceServerConfig) -> Seq<Seq<char>> {
    seq![
        "--model"@,
        c.model_path@,
        "--port"@,
        decimal_rep(c.port as nat),
        "--n-gpu-layers"@,
        decimal_rep(c.gpu_layers as nat),
        "--ctx-size"@,
        decimal_rep(c.ctx_size as nat),
        "--no-warmup"@,
    ]
}

/// Builds the launch arguments for `c`.
pub fn server_args(c: &InferenceServerConfig) -> (r: Vec<String>)
    ensures
        r.deep_view() == server_args_spec(*c),
{
    let mut args: Vec<String> = Vec::new();
    args.push(String::from_str("--model"));
    args.push(String::from_str(c.model_path.as_str()));
    args.push(String::from_str("--port"));
    args.push(decimal_string(c.port as u64));
    args.push(String::from_str("--n-gpu-layers"));
    args.push(decimal_string(c.gpu_layers as u64));
    args.push(String::from_str("--ctx-size"));
    args.push(decimal_string(c.ctx_size as u64));
    args.push(String::from_str("--no-warmup"));
    proof {
        assert(args.deep_view() =~= server_args_spec(*c));
    }
    args
}

} // verus!
