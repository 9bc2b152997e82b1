//! The two block helpers of the rendering template, as decisions.
//!
//! `if_reply` renders its block for a number, zero included, and renders
//! nothing for null. `each_reverse` takes a sequence, which is then walked
//! from its last item to its first. The rendering itself is the template
//! engine's work: these functions say whether there is anything to render,
//! and with what report the helper refuses.

use vstd::prelude::*;
use vstd::string::StringExecFns;
use crate::json::classify;
use crate::json::json_items;
use crate::json::json_param;
use crate::json::value_as_array;
use crate::json::Param;

verus! {

/// The name under which `if_reply` is registered with the template engine.
pub const IF_REPLY: &'static str = "if_reply";

/// The name under which `each_reverse` is registered with the template engine.
pub const EACH_REVERSE: &'static str = "each_reverse";

/// The local variable that holds an item's position while `each_reverse`
/// renders the block for it.
pub const INDEX_VARIABLE: &'static str = "index";

/// handlebars' `RenderError`: the failure of a rendering. Nothing inside it
/// is seen here.
#[verifier::external_type_specification]
#[verifier::external_body]
pub struct ExRenderError(handlebars::RenderError);

/// The description that a rendering failure carries.
pub uninterp spec fn render_error_desc(error: handlebars::RenderError) -> Seq<char>;

/// Trusted: handlebars' `RenderError::new`, which makes a failure with the
/// given text as its description (its field `desc`) and nothing else set.
#[verifier::external_body]
fn new_render_error(desc: &str) -> (r: handlebars::RenderError)
    ensures
        render_error_desc(r) == desc@,
{
    handlebars::RenderError::new(desc)
}

/// Why a helper refuses its call.
#[derive(Debug, Clone, Copy, PartialEq, Eq, Structural)]
pub enum HelperError {
    /// The helper was called without a parameter.
    ParamNotFound,
    /// The helper was called without a block to render.
    TemplateNotFound,
    /// The parameter is of a type that the helper does not take.
    InvalidParamType,
}

impl HelperError {
    /// The words that the report begins with, up to the helper's name.
    pub open spec fn prefix(self) -> Seq<char> {
        match self {
            HelperError::ParamNotFound => "Param not found for helper \""@,
            HelperError::TemplateNotFound => "Template not found for helper \""@,
            HelperError::InvalidParamType => "Param of invalid type for helper \""@,
        }
    }

    /// The text of the report for the helper of the given name.
    pub open spec fn message_spec(self, helper: Seq<char>) -> Seq<char> {
        self.prefix() + helper + seq!['"']
    }

    /// The text of the report for the helper of the given name.
    pub fn message(&self, helper: &str) -> (r: String)
        ensures
            r@ == self.message_spec(helper@),
    {
        proof {
            reveal_strlit("\"");
        }
        let prefix = match self {
            HelperError::ParamNotFound => "Param not found for helper \"",
            HelperError::TemplateNotFound => "Template not found for helper \"",
            HelperError::InvalidParamType => "Param of invalid type for helper \"",
        };
        let text = String::from_str(prefix).concat(helper).concat("\"");
        assert(text@ =~= self.message_spec(helper@));
        text
    }

    /// The failure that the template engine is handed for the helper of the
    /// given name: one with the report as its description.
    pub fn to_render_error(&self, helper: &str) -> (r: handlebars::RenderError)
        ensures
            render_error_desc(r) == self.message_spec(helper@),
    {
        let text = self.message(helper);
        new_render_error(text.as_str())
    }
}

/// What `if_reply` does with its block.
#[derive(Debug, Clone, Copy, PartialEq, Eq, Structural)]
pub enum BlockAction {
    /// Render the block against the current context.
    Render,
    /// Render nothing.
    Skip,
}

/// What `if_reply` decides. The type of the parameter counts, not its value:
/// every number is a reply, zero too.
pub open spec fn if_reply_spec(param: Option<Param>, has_block: bool) -> Result<
    BlockAction,
    HelperError,
> {
    match param {
        None => Err(HelperError::ParamNotFound),
        Some(Param::Number) => if has_block {
            Ok(BlockAction::Render)
        } else {
            Err(HelperError::TemplateNotFound)
        },
        Some(Param::Null) => Ok(BlockAction::Skip),
        Some(Param::Other) => Err(HelperError::InvalidParamType),
    }
}

/// The parameter that the JSON value makes, if there is one.
pub open spec fn json_param_of(param: Option<&serde_json::Value>) -> Option<Param> {
    match param {
        Some(value) => Some(json_param(*value)),
        None => None,
    }
}

/// Decides for `if_reply`, given what its parameter is, if it has one, and
/// whether a block is attached.
pub fn if_reply_action(param: Option<Param>, has_block: bool) -> (r: Result<
    BlockAction,
    HelperError,
>)
    ensures
        r == if_reply_spec(param, has_block),
{
    match param {
        None => Err(HelperError::ParamNotFound),
        Some(Param::Number) => {
            if has_block {
                Ok(BlockAction::Render)
            } else {
                Err(HelperError::TemplateNotFound)
            }
        },
        Some(Param::Null) => Ok(BlockAction::Skip),
        Some(Param::Other) => Err(HelperError::InvalidParamType),
    }
}

/// Decides for `if_reply` on the JSON value that the template engine hands
/// over, if it hands one over.
pub fn if_reply(param: Option<&serde_json::Value>, has_block: bool) -> (r: Result<
    BlockAction,
    HelperError,
>)
    ensures
        r == if_reply_spec(json_param_of(param), has_block),
{
    match param {
        None => if_reply_action(None, has_block),
        Some(value) => if_reply_action(Some(classify(value)), has_block),
    }
}

/// The sequence that `each_reverse` is to walk, or why it refuses. The
/// parameter, if there is one, comes as the items it holds where it is a
/// sequence, and as `None` where it is anything else.
pub open spec fn each_reverse_spec<T>(param: Option<Option<Seq<T>>>, has_block: bool) -> Result<
    Seq<T>,
    HelperError,
> {
    match param {
        None => Err(HelperError::ParamNotFound),
        Some(found) => if !has_block {
            Err(HelperError::TemplateNotFound)
        } else {
            match found {
                Some(items) => Ok(items),
                None => Err(HelperError::InvalidParamType),
            }
        },
    }
}

/// The items of the parameter as plain values.
pub open spec fn items_view<T>(param: Option<Option<&Vec<T>>>) -> Option<Option<Seq<T>>> {
    match param {
        Some(Some(items)) => Some(Some(items@)),
        Some(None) => Some(None),
        None => None,
    }
}

/// The items that the JSON value holds as an array, if there is a value.
pub open spec fn json_items_of(param: Option<&serde_json::Value>) -> Option<
    Option<Seq<serde_json::Value>>,
> {
    match param {
        Some(value) => Some(json_items(*value)),
        None => None,
    }
}

/// `r` is the sequence or the refusal that `expected` names.
pub open spec fn gives<T>(r: Result<&Vec<T>, HelperError>, expected: Result<Seq<T>, HelperError>) -> bool {
    match r {
        Ok(items) => expected == Ok::<Seq<T>, HelperError>(items@),
        Err(e) => expected == Err::<Seq<T>, HelperError>(e),
    }
}

/// Decides for `each_reverse`, given whether a block is attached and what
/// its parameter is, if it has one: the items where the parameter is a
/// sequence, `None` where it is anything else. Hands out the sequence to
/// walk, or the refusal.
pub fn each_reverse_items<'a, T>(param: Option<Option<&'a Vec<T>>>, has_block: bool) -> (r: Result<
    &'a Vec<T>,
    HelperError,
>)
    ensures
        gives(r, each_reverse_spec(items_view(param), has_block)),
{
    match param {
        None => Err(HelperError::ParamNotFound),
        Some(found) => {
            if !has_block {
                Err(HelperError::TemplateNotFound)
            } else {
                match found {
                    Some(items) => Ok(items),
                    None => Err(HelperError::InvalidParamType),
                }
            }
        },
    }
}

/// Decides for `each_reverse` on the JSON value that the template engine
/// hands over, if it hands one over: the value is a sequence where it is an
/// array, whatever else it may be.
pub fn each_reverse<'a>(param: Option<&'a serde_json::Value>, has_block: bool) -> (r: Result<
    &'a Vec<serde_json::Value>,
    HelperError,
>)
    ensures
        gives(r, each_reverse_spec(json_items_of(param), has_block)),
{
    match param {
        None => each_reverse_items::<serde_json::Value>(None, has_block),
        Some(value) => each_reverse_items(Some(value_as_array(value)), has_block),
    }
}

} // verus!
