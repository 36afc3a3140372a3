//! The template renderer: Handlebars templating over the lease data, with
//! the `base64Encode` / `base64Decode` helpers registered.

use vstd::prelude::*;

use crate::crd::VaultStoreRuleTemplate;
use crate::error::Error;
use handlebars::{
    Context, Handlebars, Helper, HelperResult, Output, RenderContext, RenderErrorReason,
};

verus! {

#[verifier::external_type_specification]
#[verifier::external_body]
pub struct ExHandlebars<'reg>(Handlebars<'reg>);

/// The stateless renderer: a Handlebars registry in strict mode (an
/// undefined variable is a render error) with the two base64 helpers
/// registered. The field is private and every value is built by
/// [`Renderer::new`], so all renderers behave alike.
pub struct Renderer {
    hb: Handlebars<'static>,
}

/// What the renderer yields for a template over a key/value context: the
/// expanded text, or nothing when rendering fails (undefined variable,
/// malformed template, or a failing helper). A function of the template and
/// the context alone.
pub uninterp spec fn render_of(tmpl: Seq<char>, data: Seq<(Seq<char>, Seq<char>)>) -> Option<
    Seq<char>,
>;

/// The views of a key/value list.
pub open spec fn kv_view(data: Seq<(String, String)>) -> Seq<(Seq<char>, Seq<char>)> {
    data.map_values(|p: (String, String)| (p.0@, p.1@))
}

/// Relies on `handlebars::Handlebars::new` and `set_strict_mode`: a fresh
/// registry in strict mode, before the helpers are added.
#[verifier::external_body]
fn hb_base() -> Handlebars<'static> {
    let mut hb = Handlebars::new();
    hb.set_strict_mode(true);
    hb
}

/// Relies on `handlebars::Handlebars::register_helper`: adds the
/// `base64Encode` helper, whose work is done by the verified
/// [`crate::b64::base64_encode_str`].
#[verifier::external_body]
fn register_encode_helper(hb: &mut Handlebars<'static>) {
    hb.register_helper(
        "base64Encode",
        Box::new(
            |h: &Helper, _: &Handlebars, _: &Context, _: &mut RenderContext, out: &mut dyn Output| -> HelperResult {
                let s = h.param(0).and_then(|p| p.value().as_str()).ok_or(
                    RenderErrorReason::Other("base64Encode: string argument required".to_string()),
                )?;
                out.write(&crate::b64::base64_encode_str(s))?;
                Ok(())
            },
        ),
    );
}

/// Relies on `handlebars::Handlebars::register_helper`: adds the
/// `base64Decode` helper, whose work is done by the verified
/// [`crate::b64::base64_decode_str`]; a decode failure surfaces as a render error.
#[verifier::external_body]
fn register_decode_helper(hb: &mut Handlebars<'static>) {
    hb.register_helper(
        "base64Decode",
        Box::new(
            |h: &Helper, _: &Handlebars, _: &Context, _: &mut RenderContext, out: &mut dyn Output| -> HelperResult {
                let s = h.param(0).and_then(|p| p.value().as_str()).ok_or(
                    RenderErrorReason::Other("base64Decode: string argument required".to_string()),
                )?;
                let d = crate::b64::base64_decode_str(s)
                    .ok_or(RenderErrorReason::Other("base64 decode failure".to_string()))?;
                out.write(&d)?;
                Ok(())
            },
        ),
    );
}

/// Relies on `handlebars::Handlebars::render_template`, called on the one
/// registry shape [`Renderer::new`] builds: the result is a function of the
/// template and the context alone. The context list is handed over as a
/// map, so of entries sharing a key the last one is seen.
#[verifier::external_body]
fn hb_render(r: &Renderer, tmpl: &String, data: &Vec<(String, String)>) -> (res: Result<
    String,
    (),
>)
    ensures
        res is Ok <==> render_of(tmpl@, kv_view(data@)) is Some,
        res matches Ok(s) ==> render_of(tmpl@, kv_view(data@)) == Some(s@),
{
    let ctx: std::collections::BTreeMap<&str, &str> =
        data.iter().map(|p| (p.0.as_str(), p.1.as_str())).collect();
    r.hb.render_template(tmpl.as_str(), &ctx).map_err(|_| ())
}

/// Whether every template of the list renders over the context.
pub open spec fn all_render(
    tmpls: Seq<VaultStoreRuleTemplate>,
    data: Seq<(Seq<char>, Seq<char>)>,
) -> bool {
    forall|i: int|
        0 <= i < tmpls.len() ==> #[trigger] render_of(tmpls[i].template@, data) is Some
}

/// The secret key/value pairs a template list yields over a context, when
/// every template renders.
pub open spec fn rendered_pairs(
    tmpls: Seq<VaultStoreRuleTemplate>,
    data: Seq<(Seq<char>, Seq<char>)>,
) -> Seq<(Seq<char>, Seq<char>)> {
    Seq::new(tmpls.len(), |i: int| (tmpls[i].key@, render_of(tmpls[i].template@, data)->0))
}

impl Renderer {
    /// A fresh renderer: strict mode, base64 helpers registered.
    pub fn new() -> Renderer {
        let mut hb = hb_base();
        register_encode_helper(&mut hb);
        register_decode_helper(&mut hb);
        Renderer { hb }
    }

    /// Expands one template over the lease data.
    pub fn render_template(&self, tmpl: &String, data: &Vec<(String, String)>) -> (r: Result<
        String,
        Error,
    >)
        ensures
            r is Ok <==> render_of(tmpl@, kv_view(data@)) is Some,
            r matches Ok(s) ==> render_of(tmpl@, kv_view(data@)) == Some(s@),
            r matches Err(e) ==> e == Error::TemplateRenderFailed,
    {
        match hb_render(self, tmpl, data) {
            Ok(s) => Ok(s),
            Err(()) => Err(Error::TemplateRenderFailed),
        }
    }

    /// Expands every template of a rule over the lease data, pairing each
    /// output key with its rendered value. Fails iff any template fails.
    pub fn render_all(
        &self,
        templates: &Vec<VaultStoreRuleTemplate>,
        data: &Vec<(String, String)>,
    ) -> (r: Result<Vec<(String, String)>, Error>)
        ensures
            r is Ok <==> all_render(templates@, kv_view(data@)),
            r matches Ok(v) ==> kv_view(v@) == rendered_pairs(templates@, kv_view(data@)),
            r matches Err(e) ==> e == Error::TemplateRenderFailed,
    {
        let mut out: Vec<(String, String)> = Vec::new();
        let mut i: usize = 0;
        while i < templates.len()
            invariant
                0 <= i <= templates@.len(),
                out@.len() == i,
                forall|j: int|
                    0 <= j < i ==> #[trigger] render_of(
                        templates@[j].template@,
                        kv_view(data@),
                    ) is Some,
                forall|j: int|
                    0 <= j < i ==> (#[trigger] out@[j]).0@ == templates@[j].key@ && Some(
                        out@[j].1@,
                    ) == render_of(templates@[j].template@, kv_view(data@)),
            decreases templates@.len() - i,
        {
            let t = &templates[i];
            match self.render_template(&t.template, data) {
                Ok(v) => {
                    out.push((t.key.clone(), v));
                },
                Err(e) => {
                    return Err(e);
                },
            }
            i = i + 1;
        }
        proof {
            assert(kv_view(out@) =~= rendered_pairs(templates@, kv_view(data@)));
        }
        Ok(out)
    }
}

} // verus!
