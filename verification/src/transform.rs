//! The build-time transformer: given the annotation's type argument and the
//! parsed shape of an annotated function, decide how the function's
//! definition is rewritten and render the rewritten body text.
//!
//! Two annotation forms exist: the general-purpose form wraps blocking and
//! suspending functions alike and selects the blocking protocol's entry
//! points (`run_sync` or `run_async`), while the suspend-only form accepts
//! suspending functions only and selects the suspending protocol's `run`.
//! Constant-evaluated functions are always rejected: the hooks are not
//! constant-evaluable operations.
//!
//! Every rejection is a build-time diagnostic: a failure directive placed so
//! that the rest of the function's signature keeps participating in type
//! inference, or a hard failure of the expansion when there is no function
//! body to keep.

use vstd::prelude::*;

verus! {

/// Relies on std's `String::push_str`: it appends the given string slice
/// onto the end of the string. vstd gives it no specification.
pub assume_specification[ String::push_str ](s: &mut String, other: &str)
    ensures
        final(s)@ == old(s)@ + other@,
;

/// The parsed shape of an annotated function, as the transformer reads it.
/// The rest of the definition (visibility, attributes, generic and lifetime
/// parameters, parameter list, return type) passes through the
/// transformation untouched and is therefore not recorded here.
#[derive(Debug)]
pub struct FnDescriptor {
    /// The function's identifier.
    pub fn_name: String,
    /// Whether the function is constant-evaluated.
    pub is_const: bool,
    /// Whether the function is suspending.
    pub is_async: bool,
    /// The function's original body: a braced block of statements.
    pub body: String,
}

/// Mathematical model of a [`FnDescriptor`]: the same shape over character
/// sequences.
pub struct FnShape {
    /// The function's identifier.
    pub fn_name: Seq<char>,
    /// Whether the function is constant-evaluated.
    pub is_const: bool,
    /// Whether the function is suspending.
    pub is_async: bool,
    /// The function's original body.
    pub body: Seq<char>,
}

impl View for FnDescriptor {
    type V = FnShape;

    open spec fn view(&self) -> FnShape {
        FnShape {
            fn_name: self.fn_name@,
            is_const: self.is_const,
            is_async: self.is_async,
            body: self.body@,
        }
    }
}

/// How an annotated function's definition is rewritten.
#[derive(Debug)]
pub enum Rewrite {
    /// Insert a build-failure directive carrying this message as the first
    /// statement of the body, keeping the rest of the definition, so that
    /// type inference elsewhere still works and the diagnostic stays
    /// localized.
    InjectError(String),
    /// Replace the function's body with this block; everything else in the
    /// definition stays as it was.
    ReplaceBody(String),
    /// Fail the whole expansion with a diagnostic carrying this message.
    Fail(String),
}

/// Mathematical model of a [`Rewrite`]: the same cases over character
/// sequences.
pub enum RewriteView {
    /// Insert a build-failure directive with this message.
    InjectError(Seq<char>),
    /// Replace the function's body with this block.
    ReplaceBody(Seq<char>),
    /// Fail the whole expansion with this message.
    Fail(Seq<char>),
}

impl View for Rewrite {
    type V = RewriteView;

    open spec fn view(&self) -> RewriteView {
        match self {
            Rewrite::InjectError(message) => RewriteView::InjectError(message@),
            Rewrite::ReplaceBody(body) => RewriteView::ReplaceBody(body@),
            Rewrite::Fail(message) => RewriteView::Fail(message@),
        }
    }
}

/// The diagnostic for an absent or malformed type argument.
pub open spec fn missing_type_error() -> Seq<char> {
    "Expected a type as argument: `#[wrap(Type)]` or `#[async_wrap(Type)]`"@
}

/// The diagnostic for annotating a constant-evaluated function.
pub open spec fn const_fn_error() -> Seq<char> {
    "#[wrap] cannot operate on const functions."@
}

/// The diagnostic for annotating a non-suspending function with the
/// suspend-only form.
pub open spec fn sync_fn_error() -> Seq<char> {
    "#[async_wrap] cannot operate on sync functions. Please consider using a #[wrap] macro or converting/wrapping the function to be async."@
}

/// Everything the generated block puts in front of the original body when a
/// blocking function is wrapped: the qualified `run_sync` call, the caller
/// context built from the function's own identifier, and the opening of the
/// deferred computation that captures by move.
pub open spec fn sync_call_prefix(context_type: Seq<char>, fn_name: Seq<char>) -> Seq<char> {
    "{ <"@ + context_type
        + " as ::context_manager::SyncWrapContext<_>>::run_sync(::context_manager::CallerContext::new(\""@
        + fn_name + "\"), move || "@
}

/// The block generated for a blocking function under the general-purpose
/// form: the original body, passed unchanged as the deferred computation of
/// the blocking protocol's `run_sync`.
pub open spec fn sync_wrapped_body(
    context_type: Seq<char>,
    fn_name: Seq<char>,
    body: Seq<char>,
) -> Seq<char> {
    sync_call_prefix(context_type, fn_name) + body + ") }"@
}

/// Everything the generated block puts in front of the original body when a
/// suspending function is wrapped under the general-purpose form. The
/// generated call is qualified by `SyncWrapContextExt`, the extension trait
/// the published surface offers beside [`crate::SyncWrapContext`]: it
/// carries `run_async`, the blocking protocol's suspending entry point,
/// which is itself suspending and so cannot stand on the verified trait.
pub open spec fn async_call_prefix(context_type: Seq<char>, fn_name: Seq<char>) -> Seq<char> {
    "{ <"@ + context_type
        + " as ::context_manager::SyncWrapContextExt<_>>::run_async(::context_manager::CallerContext::new(\""@
        + fn_name + "\"), async "@
}

/// The block generated for a suspending function under the general-purpose
/// form: the original body, passed unchanged as the suspending computation
/// of the blocking protocol's `run_async`, with the generated call awaited.
pub open spec fn async_wrapped_body(
    context_type: Seq<char>,
    fn_name: Seq<char>,
    body: Seq<char>,
) -> Seq<char> {
    async_call_prefix(context_type, fn_name) + body + ").await }"@
}

/// Everything the generated block puts in front of the original body when a
/// suspending function is wrapped under the suspend-only form.
/// `AsyncWrapContext` is the suspending protocol trait the published surface
/// offers beside [`crate::SyncWrapContext`]; its hooks are suspending, so it
/// cannot stand in the verified crate.
pub open spec fn suspend_call_prefix(context_type: Seq<char>, fn_name: Seq<char>) -> Seq<char> {
    "{ <"@ + context_type
        + " as ::context_manager::AsyncWrapContext<_>>::run(::context_manager::CallerContext::new(\""@
        + fn_name + "\"), async "@
}

/// The block generated under the suspend-only form: the original body,
/// passed unchanged as the suspending computation of the suspending
/// protocol's `run`, with the generated call awaited.
pub open spec fn suspend_wrapped_body(
    context_type: Seq<char>,
    fn_name: Seq<char>,
    body: Seq<char>,
) -> Seq<char> {
    suspend_call_prefix(context_type, fn_name) + body + ").await }"@
}

/// The type argument of the annotation, as a character sequence when one was
/// given.
pub open spec fn attr_text(attr: Option<&str>) -> Option<Seq<char>> {
    match attr {
        Some(context_type) => Some(context_type@),
        None => None,
    }
}

/// What the general-purpose form does with a function: reject a
/// constant-evaluated one, fail without a type argument, and otherwise
/// rewrite the body around the blocking protocol's entry point that matches
/// the function's execution model.
pub open spec fn wrap_rewrite(attr: Option<Seq<char>>, f: FnShape) -> RewriteView {
    if f.is_const {
        RewriteView::InjectError(const_fn_error())
    } else {
        match attr {
            None => RewriteView::Fail(missing_type_error()),
            Some(context_type) => if f.is_async {
                RewriteView::ReplaceBody(async_wrapped_body(context_type, f.fn_name, f.body))
            } else {
                RewriteView::ReplaceBody(sync_wrapped_body(context_type, f.fn_name, f.body))
            },
        }
    }
}

/// What the suspend-only form does with a function: reject a
/// constant-evaluated one, fail without a type argument, reject a
/// non-suspending one, and otherwise rewrite the body around the suspending
/// protocol's `run`.
pub open spec fn async_wrap_rewrite(attr: Option<Seq<char>>, f: FnShape) -> RewriteView {
    if f.is_const {
        RewriteView::InjectError(const_fn_error())
    } else {
        match attr {
            None => RewriteView::Fail(missing_type_error()),
            Some(context_type) => if f.is_async {
                RewriteView::ReplaceBody(suspend_wrapped_body(context_type, f.fn_name, f.body))
            } else {
                RewriteView::InjectError(sync_fn_error())
            },
        }
    }
}

/// Render the block that replaces a blocking function's body under the
/// general-purpose form.
fn render_sync_body(context_type: &str, fn_name: &str, body: &str) -> (r: String)
    ensures
        r@ == sync_wrapped_body(context_type@, fn_name@, body@),
{
    let mut out: String = "{ <".to_owned();
    out.push_str(context_type);
    out.push_str(
        " as ::context_manager::SyncWrapContext<_>>::run_sync(::context_manager::CallerContext::new(\"",
    );
    out.push_str(fn_name);
    out.push_str("\"), move || ");
    out.push_str(body);
    out.push_str(") }");
    out
}

/// Render the block that replaces a suspending function's body under the
/// general-purpose form.
fn render_async_body(context_type: &str, fn_name: &str, body: &str) -> (r: String)
    ensures
        r@ == async_wrapped_body(context_type@, fn_name@, body@),
{
    let mut out: String = "{ <".to_owned();
    out.push_str(context_type);
    out.push_str(
        " as ::context_manager::SyncWrapContextExt<_>>::run_async(::context_manager::CallerContext::new(\"",
    );
    out.push_str(fn_name);
    out.push_str("\"), async ");
    out.push_str(body);
    out.push_str(").await }");
    out
}

/// Render the block that replaces a suspending function's body under the
/// suspend-only form.
fn render_suspend_body(context_type: &str, fn_name: &str, body: &str) -> (r: String)
    ensures
        r@ == suspend_wrapped_body(context_type@, fn_name@, body@),
{
    let mut out: String = "{ <".to_owned();
    out.push_str(context_type);
    out.push_str(
        " as ::context_manager::AsyncWrapContext<_>>::run(::context_manager::CallerContext::new(\"",
    );
    out.push_str(fn_name);
    out.push_str("\"), async ");
    out.push_str(body);
    out.push_str(").await }");
    out
}

/// Expand the general-purpose annotation: decide, for the given type
/// argument and function shape, exactly how the definition is rewritten.
pub fn expand_wrap(attr: Option<&str>, f: &FnDescriptor) -> (r: Rewrite)
    ensures
        r@ == wrap_rewrite(attr_text(attr), f@),
{
    if f.is_const {
        Rewrite::InjectError("#[wrap] cannot operate on const functions.".to_owned())
    } else {
        match attr {
            None => Rewrite::Fail(
                "Expected a type as argument: `#[wrap(Type)]` or `#[async_wrap(Type)]`".to_owned(),
            ),
            Some(context_type) => if f.is_async {
                Rewrite::ReplaceBody(
                    render_async_body(context_type, f.fn_name.as_str(), f.body.as_str()),
                )
            } else {
                Rewrite::ReplaceBody(
                    render_sync_body(context_type, f.fn_name.as_str(), f.body.as_str()),
                )
            },
        }
    }
}

/// Expand the suspend-only annotation: decide, for the given type argument
/// and function shape, exactly how the definition is rewritten.
pub fn expand_async_wrap(attr: Option<&str>, f: &FnDescriptor) -> (r: Rewrite)
    ensures
        r@ == async_wrap_rewrite(attr_text(attr), f@),
{
    if f.is_const {
        Rewrite::InjectError("#[wrap] cannot operate on const functions.".to_owned())
    } else {
        match attr {
            None => Rewrite::Fail(
                "Expected a type as argument: `#[wrap(Type)]` or `#[async_wrap(Type)]`".to_owned(),
            ),
            Some(context_type) => if f.is_async {
                Rewrite::ReplaceBody(
                    render_suspend_body(context_type, f.fn_name.as_str(), f.body.as_str()),
                )
            } else {
                Rewrite::InjectError(
                    "#[async_wrap] cannot operate on sync functions. Please consider using a #[wrap] macro or converting/wrapping the function to be async.".to_owned(),
                )
            },
        }
    }
}

/// Rejection: a constant-evaluated function is rejected by both annotation
/// forms; a non-suspending function is rejected by the suspend-only form;
/// and whenever a type argument is present, every other combination is
/// rewritten.
pub proof fn lemma_rejection(attr: Option<Seq<char>>, f: FnShape)
    ensures
        f.is_const ==> wrap_rewrite(attr, f) == RewriteView::InjectError(const_fn_error()),
        f.is_const ==> async_wrap_rewrite(attr, f) == RewriteView::InjectError(const_fn_error()),
        !f.is_async ==> !(async_wrap_rewrite(attr, f) is ReplaceBody),
        !f.is_const && attr is None ==> wrap_rewrite(attr, f) == RewriteView::Fail(
            missing_type_error(),
        ),
        !f.is_const && attr is None ==> async_wrap_rewrite(attr, f) == RewriteView::Fail(
            missing_type_error(),
        ),
        !f.is_const && attr is Some ==> wrap_rewrite(attr, f) is ReplaceBody,
        !f.is_const && f.is_async && attr is Some ==> async_wrap_rewrite(attr, f) is ReplaceBody,
{
}

/// In a concatenation, the middle part stands unchanged at the offset where
/// the front part ends.
proof fn lemma_concat_middle(front: Seq<char>, mid: Seq<char>, back: Seq<char>)
    ensures
        (front + mid + back).subrange(
            front.len() as int,
            front.len() + mid.len() as int,
        ) =~= mid,
{
}

/// Transparency of the rewrite: each generated block embeds the original
/// body verbatim and contiguously, right after the generated call prefix —
/// the transformer never edits the statements it wraps.
pub proof fn lemma_rewrite_embeds_body(context_type: Seq<char>, fn_name: Seq<char>, body: Seq<char>)
    ensures
        sync_wrapped_body(context_type, fn_name, body).subrange(
            sync_call_prefix(context_type, fn_name).len() as int,
            sync_call_prefix(context_type, fn_name).len() + body.len() as int,
        ) == body,
        async_wrapped_body(context_type, fn_name, body).subrange(
            async_call_prefix(context_type, fn_name).len() as int,
            async_call_prefix(context_type, fn_name).len() + body.len() as int,
        ) == body,
        suspend_wrapped_body(context_type, fn_name, body).subrange(
            suspend_call_prefix(context_type, fn_name).len() as int,
            suspend_call_prefix(context_type, fn_name).len() + body.len() as int,
        ) == body,
{
    lemma_concat_middle(sync_call_prefix(context_type, fn_name), body, ") }"@);
    lemma_concat_middle(async_call_prefix(context_type, fn_name), body, ").await }"@);
    lemma_concat_middle(suspend_call_prefix(context_type, fn_name), body, ").await }"@);
}

} // verus!

