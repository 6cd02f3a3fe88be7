use vstd::prelude::*;

verus! {

broadcast use vstd::std_specs::vec::axiom_vec_index_decreases;

/// The shapes of a JavaScript expression that the rewrite reads.
pub enum JsExpr {
    /// A string literal, with its value.
    Str(String),
    /// Any literal that is not a string.
    OtherLit,
    /// A template literal: its raw text chunks, and the expressions interpolated
    /// between them.
    Tpl(Vec<String>, Vec<JsExpr>),
    /// A binary addition, `left + right`.
    Add(Box<JsExpr>, Box<JsExpr>),
    /// A binary expression with any operator but `+`.
    Bin(Box<JsExpr>, Box<JsExpr>),
    /// A bare identifier.
    Ident(String),
    /// `new callee(args)`; `None` where the expression has no argument list.
    New(Box<JsExpr>, Option<Vec<JsExpr>>),
    /// `callee(args)`.
    Call(Box<JsExpr>, Vec<JsExpr>),
    /// `object.property`.
    Member(Box<JsExpr>, String),
    /// An object literal: property names and their values, in order.
    Object(Vec<String>, Vec<JsExpr>),
    /// Any other expression.
    Other,
}

/// The placeholder that stands for a part of a message that is not literal text.
pub open spec fn placeholder() -> Seq<char> {
    seq!['%', 's']
}

/// The message template of an expression.
pub open spec fn message_of(e: JsExpr) -> Seq<char>
    decreases e, 0nat,
{
    match e {
        JsExpr::Str(s) => s@,
        JsExpr::Tpl(quasis, exprs) => template_of(quasis@, exprs@, quasis@.len()),
        JsExpr::Add(l, r) => message_of(*l) + message_of(*r),
        _ => placeholder(),
    }
}

/// The message template of the first `n` chunks of a template literal, each
/// followed by the template of the expression at its index, where there is one.
pub open spec fn template_of(quasis: Seq<String>, exprs: Seq<JsExpr>, n: nat) -> Seq<char>
    decreases exprs, n,
{
    if n == 0 {
        Seq::empty()
    } else {
        let k = (n - 1) as int;
        let head = template_of(quasis, exprs, (n - 1) as nat) + quasis[k]@;
        if k < exprs.len() {
            head + message_of(exprs[k])
        } else {
            head
        }
    }
}

fn placeholder_text() -> (r: String)
    ensures
        r@ == placeholder(),
{
    proof {
        reveal_strlit("%s");
    }
    String::from_str("%s")
}

/// Renders an error message argument as a template: literal text is kept, and
/// each part that is not literal becomes `%s`. An addition is read as a
/// concatenation, whatever the types of its operands.
pub fn stringify_new_error_arg(e: &JsExpr) -> (r: String)
    ensures
        r@ == message_of(*e),
    decreases e,
{
    match e {
        JsExpr::Str(s) => s.clone(),
        JsExpr::Tpl(quasis, exprs) => {
            let mut result = String::new();
            let mut i: usize = 0;
            assert(decreases_to!(*e => *exprs));
            while i < quasis.len()
                invariant
                    decreases_to!(*e => *exprs),
                    i <= quasis@.len(),
                    result@ == template_of(quasis@, exprs@, i as nat),
                decreases quasis@.len() - i,
            {
                result.append(quasis[i].as_str());
                if i < exprs.len() {
                    proof {
                        assert(decreases_to!(*exprs => exprs@[i as int]));
                        assert(decreases_to!(*e => exprs@[i as int]));
                    }
                    let part = stringify_new_error_arg(&exprs[i]);
                    result.append(part.as_str());
                }
                i = i + 1;
            }
            result
        },
        JsExpr::Add(l, r) => {
            let mut result = stringify_new_error_arg(l);
            let right = stringify_new_error_arg(r);
            result.append(right.as_str());
            result
        },
        _ => placeholder_text(),
    }
}

/// The name of the error constructor that the rewrite looks for.
pub open spec fn error_name() -> Seq<char> {
    "Error"@
}

/// `new Error(...)` with the bare identifier `Error` as callee and at least one
/// argument: the one expression shape that receives a code.
pub open spec fn is_error_site(e: JsExpr) -> bool {
    &&& e matches JsExpr::New(callee, Some(args))
    &&& *callee matches JsExpr::Ident(name)
    &&& name@ == error_name()
    &&& args@.len() > 0
}

/// The first argument of an error site.
pub open spec fn first_argument(e: JsExpr) -> JsExpr
    recommends
        is_error_site(e),
{
    e->New_1->Some_0@[0]
}

/// `r` is `Object.assign(e, { __NEXT_ERROR_CODE: "<code>" })`.
pub open spec fn is_code_wrapper(r: JsExpr, e: JsExpr, code: Seq<char>) -> bool {
    &&& r matches JsExpr::Call(callee, args)
    &&& *callee matches JsExpr::Member(obj, prop)
    &&& *obj matches JsExpr::Ident(o)
    &&& o@ == "Object"@
    &&& prop@ == "assign"@
    &&& args@.len() == 2
    &&& args@[0] == e
    &&& args@[1] matches JsExpr::Object(keys, values)
    &&& keys@.len() == 1
    &&& values@.len() == 1
    &&& keys@[0]@ == "__NEXT_ERROR_CODE"@
    &&& values@[0] matches JsExpr::Str(c)
    &&& c@ == code
}

fn is_error_name(name: &String) -> (r: bool)
    ensures
        r == (name@ == error_name()),
{
    let target = String::from_str("Error");
    *name == target
}

/// The first argument of `e` where `e` is an error site, and `None` elsewhere.
pub fn error_argument(e: &JsExpr) -> (r: Option<&JsExpr>)
    ensures
        r is Some <==> is_error_site(*e),
        r is Some ==> *r->Some_0 == first_argument(*e),
{
    match e {
        JsExpr::New(callee, Some(args)) => {
            match &**callee {
                JsExpr::Ident(name) => {
                    if is_error_name(name) && args.len() > 0 {
                        Some(&args[0])
                    } else {
                        None
                    }
                },
                _ => None,
            }
        },
        _ => None,
    }
}

/// `Object.assign(e, { __NEXT_ERROR_CODE: "<code>" })`: the error object, with
/// the code attached as a property.
pub fn wrap_with_code(e: JsExpr, code: String) -> (r: JsExpr)
    ensures
        is_code_wrapper(r, e, code@),
{
    let object = JsExpr::Ident(String::from_str("Object"));
    let callee = JsExpr::Member(Box::new(object), String::from_str("assign"));
    let property = JsExpr::Object(vec![String::from_str("__NEXT_ERROR_CODE")], vec![JsExpr::Str(code)]);
    JsExpr::Call(Box::new(callee), vec![e, property])
}

/// The rewrite does not apply twice: an expression already wrapped with a code
/// is no error site, whatever it wraps.
pub proof fn lemma_wrapped_is_not_error_site(r: JsExpr, e: JsExpr, code: Seq<char>)
    requires
        is_code_wrapper(r, e, code),
    ensures
        !is_error_site(r),
{
}

} // verus!
