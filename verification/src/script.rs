//! Checking the syntax of tool scripts.
use crate::text::concat;
use vstd::prelude::*;

verus! {

/// What QuickJS may say of a module's source when it is only compiled: nothing where it is
/// accepted, else an error. Besides the source, memory and stack decide, so there may be more than
/// one outcome.
pub uninterp spec fn compile_outcomes(source: Seq<char>) -> Set<Option<Seq<char>>>;

/// An optional text as a value.
pub open spec fn text_view(t: Option<String>) -> Option<Seq<char>> {
    match t {
        Some(s) => Some(s@),
        None => None,
    }
}

/// `rquickjs::Module::declare` in a fresh runtime and context, with the text of its error.
///
/// The source is compiled, not run. One that holds a NUL character is refused.
#[verifier::external_body]
fn compile_module(source: &str) -> (error: Option<String>)
    ensures
        compile_outcomes(source@).contains(text_view(error)),
        source@.contains('\0') ==> error is Some,
{
    let compiled = rquickjs::Runtime::new().and_then(|rt| {
        let context = rquickjs::Context::full(&rt)?;
        context.with(|ctx| rquickjs::Module::declare(ctx, "validate", source).map(|_| ()))
    });
    compiled.err().map(|e| e.to_string())
}

/// The module that a script is checked in: the body of a function, so that it may return.
pub open spec fn wrapped(script: Seq<char>) -> Seq<char> {
    "function __validate__() {\n"@ + script + "\n}"@
}

/// The module that a script is checked in.
pub fn wrap_script(script: &str) -> (m: String)
    ensures
        m@ == wrapped(script@),
{
    let mut m = concat("function __validate__() {\n", script);
    m.append("\n}");
    m
}

/// What is reported of a script, by the compiler's error.
pub open spec fn reported(error: Option<Seq<char>>) -> Seq<Seq<char>> {
    match error {
        Some(e) => seq!["JS Syntax Error: "@ + e],
        None => Seq::empty(),
    }
}

/// What is reported of a script, by the compiler's error.
pub fn script_errors(error: Option<String>) -> (errors: Vec<String>)
    ensures
        crate::text::views(errors@) == reported(text_view(error)),
{
    let mut errors: Vec<String> = Vec::new();
    if let Some(e) = &error {
        errors.push(concat("JS Syntax Error: ", e.as_str()));
    }
    assert(crate::text::views(errors@) =~= reported(text_view(error)));
    errors
}

/// Checks the syntax of a tool script, without running it. Reports its errors.
pub fn validate_javascript(script: &str) -> (errors: Vec<String>)
    ensures
        exists|outcome: Option<Seq<char>>| #[trigger]
            compile_outcomes(wrapped(script@)).contains(outcome) && crate::text::views(errors@)
                == reported(outcome),
        script@.contains('\0') ==> errors@.len() == 1,
{
    let module = wrap_script(script);
    let error = compile_module(module.as_str());
    proof {
        if script@.contains('\0') {
            let i = choose|i: int| 0 <= i < script@.len() && script@[i] == '\0';
            let start = "function __validate__() {\n"@.len();
            assert(module@[start + i] == '\0');
        }
    }
    let ghost outcome = text_view(error);
    let errors = script_errors(error);
    assert(compile_outcomes(wrapped(script@)).contains(outcome));
    assert(crate::text::views(errors@).len() == errors@.len());
    errors
}

/// A script is checked as it is: it stands unchanged in the module, on lines of its own, after an
/// opening brace and before the closing one.
pub proof fn law_script_is_checked_unchanged(script: Seq<char>)
    ensures
        ({
            let m = wrapped(script);
            let at = m.len() - 2 - script.len();
            &&& at > 2
            &&& m.subrange(at, at + script.len()) == script
            &&& m[at - 2] == '{' && m[at - 1] == '\n'
            &&& m[m.len() - 2] == '\n' && m[m.len() - 1] == '}'
        }),
{
    reveal_strlit("function __validate__() {\n");
    reveal_strlit("\n}");
    let m = wrapped(script);
    let lead = "function __validate__() {\n"@;
    let at = m.len() - 2 - script.len();
    assert(lead.len() == 26 && lead[24] == '{' && lead[25] == '\n');
    assert("\n}"@.len() == 2);
    assert(m.subrange(at, at + script.len()) =~= script);
}

/// An error is reported once, with its text at the end; a script that compiles has none.
pub proof fn law_errors_are_reported(error: Option<Seq<char>>)
    ensures
        reported(error).len() == 0 <==> error is None,
        error matches Some(e) ==> reported(error).len() == 1 && reported(error)[0].len() >= e.len()
            && reported(error)[0].skip(reported(error)[0].len() - e.len()) == e,
{
    if let Some(e) = error {
        let r = reported(error)[0];
        assert(r.skip(r.len() - e.len()) =~= e);
    }
}

} // verus!
