use vstd::prelude::*;

use crate::errors::{RenderError, RenderErrorV};
use crate::jsontext::{json_text, to_json_string};
use crate::jsonval::JsonValue;

verus! {

// Template expansion. The template engine is an outside collaborator;
// the context crosses into it as JSON text, so its work is a function
// of two texts: the template and the serialized context. That function
// is named below and every contract downstream speaks of the name.

/// What the template engine produces for a template and a context,
/// both given as text: the expanded HTML, or nothing when the engine
/// rejects the template or the expansion fails. The engine is
/// configured with HTML auto-escaping and its default environment,
/// which holds no clock and no randomness, so the outcome depends on
/// the two texts alone.
pub uninterp spec fn expand_of(template: Seq<char>, context_json: Seq<char>) -> Option<Seq<char>>;

/// Relies on minijinja (`Environment::new`, `set_auto_escape_callback`,
/// `add_template`, `get_template`, `Template::render`) to expand a
/// template with HTML auto-escaping, and on `serde_json::from_str` to
/// read the context back from its JSON text. The whole computation
/// depends on the two texts alone, so its outcome is `expand_of`; the
/// error variant names the engine call that failed.
#[verifier::external_body]
fn expand_template(template: &str, context_json: &str) -> (r: Result<String, RenderError>)
    ensures
        (r is Ok) == (expand_of(template@, context_json@) is Some),
        r matches Ok(h) ==> expand_of(template@, context_json@) == Some(h@),
        r matches Err(e) ==> (e@ is RegisterTemplate || e@ is LoadTemplate || e@
            is RenderTemplate),
{
    let Ok(context) = serde_json::from_str::<serde_json::Value>(context_json) else {
        return Err(RenderError::RenderTemplate);
    };
    let mut env = minijinja::Environment::new();
    env.set_auto_escape_callback(|_| minijinja::AutoEscape::Html);
    if env.add_template("card.html", template).is_err() {
        return Err(RenderError::RegisterTemplate);
    }
    match env.get_template("card.html") {
        Err(_) => Err(RenderError::LoadTemplate),
        Ok(t) => match t.render(&context) {
            Ok(html) => Ok(html),
            Err(_) => Err(RenderError::RenderTemplate),
        },
    }
}

/// Expand a template against a context value, serializing the context
/// to JSON text first. Fails exactly when the engine does; an error is
/// always one of the template-stage kinds, which the taxonomy maps to
/// `Validation`.
pub fn render_template(template: &str, data: &JsonValue) -> (r: Result<String, RenderError>)
    ensures
        (r is Ok) == (expand_of(template@, json_text(data@)) is Some),
        r matches Ok(h) ==> expand_of(template@, json_text(data@)) == Some(h@),
        r matches Err(e) ==> (e@ is RegisterTemplate || e@ is LoadTemplate || e@
            is RenderTemplate),
{
    let context_json = to_json_string(data);
    expand_template(template, context_json.as_str())
}

} // verus!
