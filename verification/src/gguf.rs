//! How a GGUF file's tensors are found and loaded.
use crate::rename_rows::is_norm;
use crate::text::{decimal, decimal_text, ends_with};
use candle_core::quantized::gguf_file::Content;
use vstd::prelude::*;
use vstd::string::*;

verus! {

/// The header of a GGUF file, as `candle_core` reads it.
#[verifier::external_type_specification]
#[verifier::external_body]
pub struct ExContent(candle_core::quantized::gguf_file::Content);

/// The names of the tensors that a GGUF header lists: the keys of the map in its
/// field `tensor_infos`.
pub uninterp spec fn tensor_names(content: Content) -> Set<Seq<char>>;

/// Asks the map of tensors in a header of `candle_core::quantized::gguf_file` for a
/// name (`HashMap::contains_key` on `Content::tensor_infos`). Taken on trust: the
/// answer is whether the name is among the keys of that map.
#[verifier::external_body]
fn lists_tensor(content: &Content, name: &str) -> (listed: bool)
    ensures
        listed == tensor_names(*content).contains(name@),
{
    content.tensor_infos.contains_key(name)
}

/// The naming convention of the tensors in a GGUF file.
#[derive(Clone, Copy, Debug, PartialEq, Eq, Structural)]
pub enum GgufNaming {
    /// Names of the HuggingFace layout, with a prefix by model family.
    HuggingFace,
    /// Names of the llama.cpp layout, the same for every model family:
    /// `token_embd.weight`, `blk.{i}.attn_q.weight` and so on.
    LlamaCpp,
}

/// The convention of a file whose tensors have the given names: llama.cpp's where
/// the token embedding goes by llama.cpp's name.
pub open spec fn naming_of(names: Set<Seq<char>>) -> GgufNaming {
    if names.contains("token_embd.weight"@) {
        GgufNaming::LlamaCpp
    } else {
        GgufNaming::HuggingFace
    }
}

impl GgufNaming {
    /// The convention of a file, by whether it lists llama.cpp's token embedding.
    pub fn from_token_embd(listed: bool) -> (naming: GgufNaming)
        ensures
            naming == if listed {
                GgufNaming::LlamaCpp
            } else {
                GgufNaming::HuggingFace
            },
    {
        if listed {
            GgufNaming::LlamaCpp
        } else {
            GgufNaming::HuggingFace
        }
    }

    /// The convention of the file with the header `content`.
    pub fn detect(content: &Content) -> (naming: GgufNaming)
        ensures
            naming == naming_of(tensor_names(*content)),
    {
        GgufNaming::from_token_embd(lists_tensor(content, "token_embd.weight"))
    }
}

/// What lies between a GGUF file and the model that asks for tensors. `R` is a way
/// to rename.
pub struct BuilderPlan<R> {
    /// Norm weights are lowered by one when they are read.
    pub norm_fix: bool,
    /// How a requested name is turned into one of the file.
    pub rename: Option<R>,
}

/// Decides how tensors are served from a file with the given naming.
///
/// `arch_rename` is the model family's way from HuggingFace names to llama.cpp names.
/// `gemma_norm_fix` is set for Gemma 3, whose model code adds one to every norm
/// weight: llama.cpp files hold the actual scale there. A file with HuggingFace names
/// already has what the model asks for, so neither applies to it.
pub fn plan_builder<R>(
    naming: GgufNaming,
    arch_rename: Option<R>,
    gemma_norm_fix: bool,
) -> (plan: BuilderPlan<R>)
    ensures
        naming == GgufNaming::LlamaCpp ==> plan.rename == arch_rename && plan.norm_fix
            == gemma_norm_fix,
        naming == GgufNaming::HuggingFace ==> plan.rename is None && !plan.norm_fix,
{
    match naming {
        GgufNaming::LlamaCpp => BuilderPlan { norm_fix: gemma_norm_fix, rename: arch_rename },
        GgufNaming::HuggingFace => BuilderPlan { norm_fix: false, rename: None },
    }
}

/// Whether the norm fix applies to the tensor `name`.
pub fn is_norm_weight(name: &str) -> (yes: bool)
    ensures
        yes == is_norm(name@),
{
    ends_with(name, "norm.weight")
}

/// The device onto which a tensor is read. A request for the CPU is honoured as it
/// is, so that a very large table never touches the memory of another device.
pub fn load_device<'a, D>(requested: &'a D, requested_is_cpu: bool, own: &'a D) -> (device: &'a D)
    ensures
        device == if requested_is_cpu {
            requested
        } else {
            own
        },
{
    if requested_is_cpu {
        requested
    } else {
        own
    }
}

/// The path that is reported for a tensor which could not be read.
pub fn missing_tensor_path(name: &str, cause: &str) -> (path: String)
    ensures
        path@ == name@ + ": "@ + cause@,
{
    let mut path: String = name.to_owned();
    path.append(": ");
    path.append(cause);
    path
}

/// Dimensions as they are shown: in brackets, with a comma and a space between.
pub open spec fn dims_shown(dims: Seq<usize>) -> Seq<char> {
    "["@ + dims_listed(dims) + "]"@
}

/// Dimensions with a comma and a space between.
pub open spec fn dims_listed(dims: Seq<usize>) -> Seq<char>
    decreases dims.len(),
{
    if dims.len() == 0 {
        Seq::empty()
    } else if dims.len() == 1 {
        decimal(dims[0] as nat)
    } else {
        dims_listed(dims.drop_last()) + ", "@ + decimal(dims.last() as nat)
    }
}

/// Shows dimensions.
pub fn dims_text(dims: &[usize]) -> (shown: String)
    ensures
        shown@ == dims_shown(dims@),
{
    let mut shown: String = "[".to_owned();
    let mut i: usize = 0;
    assert(dims@.take(0).len() == 0);
    while i < dims.len()
        invariant
            i <= dims@.len(),
            shown@ == "["@ + dims_listed(dims@.take(i as int)),
        decreases dims@.len() - i,
    {
        proof {
            assert(dims@.take(i + 1).drop_last() =~= dims@.take(i as int));
            assert("["@ + dims_listed(dims@.take(i as int)) + ", "@ + decimal(dims@[i as int] as nat)
                =~= "["@ + (dims_listed(dims@.take(i as int)) + ", "@ + decimal(
                dims@[i as int] as nat,
            )));
        }
        if i > 0 {
            shown.append(", ");
        }
        let one: String = decimal_text(dims[i]);
        shown.append(one.as_str());
        i = i + 1;
    }
    assert(dims@.take(dims@.len() as int) =~= dims@);
    shown.append("]");
    shown
}

/// Hands a tensor on where its shape `found` is the one that was asked for.
pub fn check_shape<T>(name: &str, expected: &[usize], found: &[usize], tensor: T) -> (checked: Result<
    T,
    String,
>)
    ensures
        checked is Ok <==> expected@ == found@,
        checked matches Ok(same) ==> same == tensor,
        checked matches Err(message) ==> message@ == "shape mismatch for "@ + name@
            + ": expected "@ + dims_shown(expected@) + ", got "@ + dims_shown(found@),
{
    let mut same: bool = expected.len() == found.len();
    let mut i: usize = 0;
    while same && i < expected.len()
        invariant
            same ==> expected@.len() == found@.len(),
            i <= expected@.len(),
            same ==> forall|j: int| 0 <= j < i ==> expected@[j] == found@[j],
            !same ==> expected@ != found@,
        decreases expected@.len() - i,
    {
        same = expected[i] == found[i];
        i = i + 1;
    }
    if same {
        assert(expected@ =~= found@);
        return Ok(tensor);
    }
    let mut message: String = "shape mismatch for ".to_owned();
    message.append(name);
    message.append(": expected ");
    message.append(dims_text(expected).as_str());
    message.append(", got ");
    message.append(dims_text(found).as_str());
    Err(message)
}

/// A file has the naming of llama.cpp exactly where it lists `token_embd.weight`.
pub proof fn law_naming(names: Set<Seq<char>>)
    ensures
        naming_of(names) == GgufNaming::LlamaCpp <==> names.contains("token_embd.weight"@),
        naming_of(names) == GgufNaming::HuggingFace <==> !names.contains("token_embd.weight"@),
{
}

/// A name is a norm's exactly where `norm.weight` stands at its end.
pub proof fn law_norm_by_end(start: Seq<char>, name: Seq<char>)
    ensures
        is_norm(start + "norm.weight"@),
        is_norm(name) ==> name.len() >= "norm.weight"@.len() && name == name.take(
            name.len() - "norm.weight"@.len(),
        ) + "norm.weight"@,
{
    let end = "norm.weight"@;
    let named = start + end;
    assert(named.subrange(named.len() - end.len(), named.len() as int) =~= end);
    if is_norm(name) {
        assert(name =~= name.take(name.len() - end.len()) + name.subrange(
            name.len() - end.len(),
            name.len() as int,
        ));
    }
}

/// Dimensions are shown in brackets, each in full, in their order, with a comma and a space
/// between.
pub proof fn law_dims_shown(dims: Seq<usize>, d: usize)
    ensures
        dims_shown(Seq::empty()) == "["@ + "]"@,
        dims_shown(seq![d]) == "["@ + decimal(d as nat) + "]"@,
        dims.len() > 0 ==> dims_shown(dims.push(d)) == "["@ + dims_listed(dims) + ", "@ + decimal(
            d as nat,
        ) + "]"@,
        dims_shown(dims) == "["@ + dims_listed(dims) + "]"@,
{
    assert(dims_shown(Seq::empty()) =~= "["@ + "]"@);
    if dims.len() > 0 {
        assert(dims.push(d).drop_last() =~= dims);
        assert(dims_shown(dims.push(d)) =~= "["@ + dims_listed(dims) + ", "@ + decimal(d as nat)
            + "]"@);
    }
}

} // verus!
