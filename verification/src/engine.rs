//! The style engine: filter-expression evaluation over feature
//! attributes, and the fixed road-class fallback classification.
//!
//! A filter is an untyped style value.  A bare literal evaluates to its
//! truthiness; a sequence whose first element is a string is an operator
//! invocation.  Operators: `get` reads a named attribute (a missing
//! attribute is a distinguished sentinel that equals nothing), `==` and
//! `!=` compare two evaluated operands, `in` tests membership of the
//! first evaluated operand among the rest, and `all`, `any`, `none`
//! combine boolean operands, short-circuiting on the deciding operand.
//! Arity and operand types are enforced at evaluation time through a
//! typed error.

use vstd::prelude::*;
use vstd::string::StringExecFns;

use crate::style::StringOrNumberOrSequenceOrBool as Expr;
use crate::tile::Feature;
use crate::tile::PropertyValue;
use crate::tile::spec_get_string_property;
use crate::tile::spec_lookup;
use crate::tile::spec_props;
use crate::tile::lookup_property;

verus! {

/// Builds an owned `String` holding exactly the characters of `lit`.
pub fn string_from_lit(lit: &str) -> (r: String)
    ensures
        r@ == lit@,
{
    String::from_str(lit)
}

/// Compares an owned string against a literal by characters.
pub fn string_eq_lit(s: &String, lit: &str) -> (r: bool)
    ensures
        r == (s@ == lit@),
{
    let other = String::from_str(lit);
    *s == other
}

/// Why an evaluation failed: the malformed shapes an untyped filter can
/// take, found at evaluation time.
#[derive(Clone, Copy, PartialEq, Eq, Structural, Debug)]
pub enum EvalError {
    /// An operator invocation with no elements at all.
    EmptyExpression,
    /// A sequence whose first element is not a string.
    NotAnOperator,
    /// A string operator name this engine does not know.
    UnknownOperator,
    /// A known operator applied to the wrong number of operands.
    WrongArity,
    /// An operand of the wrong type for its operator.
    TypeMismatch,
}

/// The mathematical value of an evaluated expression: a string, a
/// number, a boolean, or the sentinel for a missing attribute.
pub enum ValueV {
    Str(Seq<char>),
    Num(i64),
    Bool(bool),
    Missing,
}

/// An evaluated expression value.
#[derive(Debug, PartialEq, Eq, Clone)]
pub enum Value {
    Str(String),
    Num(i64),
    Bool(bool),
    Missing,
}

impl View for Value {
    type V = ValueV;

    open spec fn view(&self) -> ValueV {
        match self {
            Value::Str(s) => ValueV::Str(s@),
            Value::Num(n) => ValueV::Num(*n),
            Value::Bool(b) => ValueV::Bool(*b),
            Value::Missing => ValueV::Missing,
        }
    }
}

/// Equality of evaluated values: same type and same content; the
/// missing sentinel equals nothing, itself included.
pub open spec fn spec_value_eq(a: ValueV, b: ValueV) -> bool {
    match (a, b) {
        (ValueV::Str(x), ValueV::Str(y)) => x == y,
        (ValueV::Num(x), ValueV::Num(y)) => x == y,
        (ValueV::Bool(x), ValueV::Bool(y)) => x == y,
        _ => false,
    }
}

/// Truthiness of an evaluated value: a boolean is itself, a number is
/// true when nonzero, a string when nonempty, and missing is false.
pub open spec fn spec_truthy(v: ValueV) -> bool {
    match v {
        ValueV::Str(s) => s.len() > 0,
        ValueV::Num(n) => n != 0,
        ValueV::Bool(b) => b,
        ValueV::Missing => false,
    }
}

/// The mathematical value of one stored attribute.
pub open spec fn spec_prop_value(p: PropertyValue) -> ValueV {
    match p {
        PropertyValue::Str(s) => ValueV::Str(s@),
        PropertyValue::Num(n) => ValueV::Num(n),
        PropertyValue::Bool(b) => ValueV::Bool(b),
    }
}

/// What `get` returns: the attribute under `name`, or the missing
/// sentinel.
pub open spec fn spec_get_value(props: Seq<(String, PropertyValue)>, name: Seq<char>) -> ValueV {
    match spec_lookup(props, name) {
        Some(p) => spec_prop_value(p),
        None => ValueV::Missing,
    }
}

/// Evaluates an expression against an attribute list.
pub open spec fn spec_eval(e: Expr, props: Seq<(String, PropertyValue)>) -> Result<
    ValueV,
    EvalError,
>
    decreases e, 2nat, 0nat,
{
    match e {
        Expr::String(s) => Ok(ValueV::Str(s@)),
        Expr::Number(n) => Ok(ValueV::Num(n)),
        Expr::Bool(b) => Ok(ValueV::Bool(b)),
        Expr::Sequence(v) => spec_eval_op(v@, props),
    }
}

/// Evaluates an operator invocation written as the sequence `args`,
/// whose first element names the operator.
pub open spec fn spec_eval_op(args: Seq<Expr>, props: Seq<(String, PropertyValue)>) -> Result<
    ValueV,
    EvalError,
>
    decreases args, 1nat, 0nat,
{
    if args.len() == 0 {
        Err(EvalError::EmptyExpression)
    } else {
        match args[0] {
            Expr::String(op) => {
                if op@ == "get"@ {
                    if args.len() != 2 {
                        Err(EvalError::WrongArity)
                    } else {
                        match args[1] {
                            Expr::String(name) => Ok(spec_get_value(props, name@)),
                            _ => Err(EvalError::TypeMismatch),
                        }
                    }
                } else if op@ == "=="@ {
                    if args.len() != 3 {
                        Err(EvalError::WrongArity)
                    } else {
                        match spec_eval(args[1], props) {
                            Err(err) => Err(err),
                            Ok(a) => match spec_eval(args[2], props) {
                                Err(err) => Err(err),
                                Ok(b) => Ok(ValueV::Bool(spec_value_eq(a, b))),
                            },
                        }
                    }
                } else if op@ == "!="@ {
                    if args.len() != 3 {
                        Err(EvalError::WrongArity)
                    } else {
                        match spec_eval(args[1], props) {
                            Err(err) => Err(err),
                            Ok(a) => match spec_eval(args[2], props) {
                                Err(err) => Err(err),
                                Ok(b) => Ok(ValueV::Bool(!spec_value_eq(a, b))),
                            },
                        }
                    }
                } else if op@ == "in"@ {
                    if args.len() < 2 {
                        Err(EvalError::WrongArity)
                    } else {
                        match spec_eval(args[1], props) {
                            Err(err) => Err(err),
                            Ok(needle) => match spec_in_list(args, 2, needle, props) {
                                Err(err) => Err(err),
                                Ok(b) => Ok(ValueV::Bool(b)),
                            },
                        }
                    }
                } else if op@ == "all"@ {
                    match spec_all_list(args, 1, props) {
                        Err(err) => Err(err),
                        Ok(b) => Ok(ValueV::Bool(b)),
                    }
                } else if op@ == "any"@ {
                    match spec_any_list(args, 1, props) {
                        Err(err) => Err(err),
                        Ok(b) => Ok(ValueV::Bool(b)),
                    }
                } else if op@ == "none"@ {
                    match spec_any_list(args, 1, props) {
                        Err(err) => Err(err),
                        Ok(b) => Ok(ValueV::Bool(!b)),
                    }
                } else {
                    Err(EvalError::UnknownOperator)
                }
            },
            _ => Err(EvalError::NotAnOperator),
        }
    }
}

/// Membership scan for `in`: whether `needle` equals one of the
/// evaluated elements of `args` from index `i` on; stops at the first
/// equal element.
pub open spec fn spec_in_list(
    args: Seq<Expr>,
    i: int,
    needle: ValueV,
    props: Seq<(String, PropertyValue)>,
) -> Result<bool, EvalError>
    decreases args, 0nat, args.len() - i,
{
    if i < 0 || i >= args.len() {
        Ok(false)
    } else {
        match spec_eval(args[i], props) {
            Err(err) => Err(err),
            Ok(v) => if spec_value_eq(needle, v) {
                Ok(true)
            } else {
                spec_in_list(args, i + 1, needle, props)
            },
        }
    }
}

/// Conjunction scan for `all`: true when every evaluated operand from
/// index `i` on is true; stops at the first false operand.
pub open spec fn spec_all_list(
    args: Seq<Expr>,
    i: int,
    props: Seq<(String, PropertyValue)>,
) -> Result<bool, EvalError>
    decreases args, 0nat, args.len() - i,
{
    if i < 0 || i >= args.len() {
        Ok(true)
    } else {
        match spec_eval(args[i], props) {
            Err(err) => Err(err),
            Ok(ValueV::Bool(false)) => Ok(false),
            Ok(ValueV::Bool(true)) => spec_all_list(args, i + 1, props),
            Ok(_) => Err(EvalError::TypeMismatch),
        }
    }
}

/// Disjunction scan for `any`: true when at least one evaluated operand
/// from index `i` on is true; stops at the first true operand.
pub open spec fn spec_any_list(
    args: Seq<Expr>,
    i: int,
    props: Seq<(String, PropertyValue)>,
) -> Result<bool, EvalError>
    decreases args, 0nat, args.len() - i,
{
    if i < 0 || i >= args.len() {
        Ok(false)
    } else {
        match spec_eval(args[i], props) {
            Err(err) => Err(err),
            Ok(ValueV::Bool(true)) => Ok(true),
            Ok(ValueV::Bool(false)) => spec_any_list(args, i + 1, props),
            Ok(_) => Err(EvalError::TypeMismatch),
        }
    }
}

/// Compares two evaluated values.
pub fn value_eq(a: &Value, b: &Value) -> (r: bool)
    ensures
        r == spec_value_eq(a@, b@),
{
    match (a, b) {
        (Value::Str(x), Value::Str(y)) => *x == *y,
        (Value::Num(x), Value::Num(y)) => *x == *y,
        (Value::Bool(x), Value::Bool(y)) => *x == *y,
        _ => false,
    }
}

/// The truthiness of an evaluated value.
pub fn truthy(v: &Value) -> (r: bool)
    ensures
        r == spec_truthy(v@),
{
    match v {
        Value::Str(s) => s.as_str().unicode_len() > 0,
        Value::Num(n) => *n != 0,
        Value::Bool(b) => *b,
        Value::Missing => false,
    }
}

/// Evaluates an expression against an attribute list.
pub fn eval(e: &Expr, props: &Vec<(String, PropertyValue)>) -> (r: Result<Value, EvalError>)
    ensures
        match r {
            Ok(v) => spec_eval(*e, props@) == Ok::<ValueV, EvalError>(v@),
            Err(err) => spec_eval(*e, props@) == Err::<ValueV, EvalError>(err),
        },
    decreases *e, 2nat, 0nat,
{
    match e {
        Expr::String(s) => Ok(Value::Str(s.clone())),
        Expr::Number(n) => Ok(Value::Num(*n)),
        Expr::Bool(b) => Ok(Value::Bool(*b)),
        Expr::Sequence(v) => eval_op(v, props),
    }
}

/// Evaluates an operator invocation written as the sequence `args`.
pub fn eval_op(args: &Vec<Expr>, props: &Vec<(String, PropertyValue)>) -> (r: Result<
    Value,
    EvalError,
>)
    ensures
        match r {
            Ok(v) => spec_eval_op(args@, props@) == Ok::<ValueV, EvalError>(v@),
            Err(err) => spec_eval_op(args@, props@) == Err::<ValueV, EvalError>(err),
        },
    decreases *args, 1nat, 0nat,
{
    if args.len() == 0 {
        return Err(EvalError::EmptyExpression);
    }
    match &args[0] {
        Expr::String(op) => {
            if string_eq_lit(op, "get") {
                if args.len() != 2 {
                    Err(EvalError::WrongArity)
                } else {
                    match &args[1] {
                        Expr::String(name) => {
                            match lookup_property(props, name) {
                                Some(PropertyValue::Str(s)) => Ok(Value::Str(s.clone())),
                                Some(PropertyValue::Num(n)) => Ok(Value::Num(*n)),
                                Some(PropertyValue::Bool(b)) => Ok(Value::Bool(*b)),
                                None => Ok(Value::Missing),
                            }
                        },
                        _ => Err(EvalError::TypeMismatch),
                    }
                }
            } else if string_eq_lit(op, "==") {
                if args.len() != 3 {
                    Err(EvalError::WrongArity)
                } else {
                    let a = eval(&args[1], props)?;
                    let b = eval(&args[2], props)?;
                    Ok(Value::Bool(value_eq(&a, &b)))
                }
            } else if string_eq_lit(op, "!=") {
                if args.len() != 3 {
                    Err(EvalError::WrongArity)
                } else {
                    let a = eval(&args[1], props)?;
                    let b = eval(&args[2], props)?;
                    Ok(Value::Bool(!value_eq(&a, &b)))
                }
            } else if string_eq_lit(op, "in") {
                if args.len() < 2 {
                    Err(EvalError::WrongArity)
                } else {
                    let needle = eval(&args[1], props)?;
                    let found = eval_in_list(args, 2, &needle, props)?;
                    Ok(Value::Bool(found))
                }
            } else if string_eq_lit(op, "all") {
                let b = eval_all_list(args, 1, props)?;
                Ok(Value::Bool(b))
            } else if string_eq_lit(op, "any") {
                let b = eval_any_list(args, 1, props)?;
                Ok(Value::Bool(b))
            } else if string_eq_lit(op, "none") {
                let b = eval_any_list(args, 1, props)?;
                Ok(Value::Bool(!b))
            } else {
                Err(EvalError::UnknownOperator)
            }
        },
        _ => Err(EvalError::NotAnOperator),
    }
}

/// Membership scan for `in` from index `i` on.
fn eval_in_list(
    args: &Vec<Expr>,
    i: usize,
    needle: &Value,
    props: &Vec<(String, PropertyValue)>,
) -> (r: Result<bool, EvalError>)
    ensures
        match r {
            Ok(b) => spec_in_list(args@, i as int, needle@, props@) == Ok::<bool, EvalError>(b),
            Err(err) => spec_in_list(args@, i as int, needle@, props@) == Err::<bool, EvalError>(
                err,
            ),
        },
    decreases *args, 0nat, args@.len() - i,
{
    if i >= args.len() {
        Ok(false)
    } else {
        let v = eval(&args[i], props)?;
        if value_eq(needle, &v) {
            Ok(true)
        } else {
            eval_in_list(args, i + 1, needle, props)
        }
    }
}

/// Conjunction scan for `all` from index `i` on.
fn eval_all_list(args: &Vec<Expr>, i: usize, props: &Vec<(String, PropertyValue)>) -> (r: Result<
    bool,
    EvalError,
>)
    ensures
        match r {
            Ok(b) => spec_all_list(args@, i as int, props@) == Ok::<bool, EvalError>(b),
            Err(err) => spec_all_list(args@, i as int, props@) == Err::<bool, EvalError>(err),
        },
    decreases *args, 0nat, args@.len() - i,
{
    if i >= args.len() {
        Ok(true)
    } else {
        let v = eval(&args[i], props)?;
        match v {
            Value::Bool(false) => Ok(false),
            Value::Bool(true) => eval_all_list(args, i + 1, props),
            _ => Err(EvalError::TypeMismatch),
        }
    }
}

/// Disjunction scan for `any` from index `i` on.
fn eval_any_list(args: &Vec<Expr>, i: usize, props: &Vec<(String, PropertyValue)>) -> (r: Result<
    bool,
    EvalError,
>)
    ensures
        match r {
            Ok(b) => spec_any_list(args@, i as int, props@) == Ok::<bool, EvalError>(b),
            Err(err) => spec_any_list(args@, i as int, props@) == Err::<bool, EvalError>(err),
        },
    decreases *args, 0nat, args@.len() - i,
{
    if i >= args.len() {
        Ok(false)
    } else {
        let v = eval(&args[i], props)?;
        match v {
            Value::Bool(true) => Ok(true),
            Value::Bool(false) => eval_any_list(args, i + 1, props),
            _ => Err(EvalError::TypeMismatch),
        }
    }
}

/// Whether `filter` matches `f`: the truthiness of its evaluation
/// against the feature's attributes, or the evaluation error.
pub open spec fn spec_filter_matches(filter: Expr, f: Feature) -> Result<bool, EvalError> {
    match spec_eval(filter, spec_props(f)) {
        Ok(v) => Ok(spec_truthy(v)),
        Err(err) => Err(err),
    }
}

/// Decides whether a layer's filter expression matches a feature.
pub fn filter_matches(filter: &Expr, feature: &Feature) -> (r: Result<bool, EvalError>)
    ensures
        match r {
            Ok(b) => spec_filter_matches(*filter, *feature) == Ok::<bool, EvalError>(b),
            Err(err) => spec_filter_matches(*filter, *feature) == Err::<bool, EvalError>(err),
        },
{
    let v = match &feature.properties {
        Some(props) => eval(filter, props),
        None => {
            let empty: Vec<(String, PropertyValue)> = Vec::new();
            assert(empty@ =~= spec_props(*feature));
            eval(filter, &empty)
        },
    };
    match v {
        Ok(v) => Ok(truthy(&v)),
        Err(err) => Err(err),
    }
}

/// Whether a layer's filter — the sequence written in its style
/// document, read as one operator invocation — matches a feature.
pub open spec fn spec_layer_filter_matches(filt: Vec<Expr>, f: Feature) -> Result<
    bool,
    EvalError,
> {
    match spec_eval_op(filt@, spec_props(f)) {
        Ok(v) => Ok(spec_truthy(v)),
        Err(err) => Err(err),
    }
}

/// Decides whether the filter sequence of a style layer matches a
/// feature.
pub fn layer_filter_matches(filt: &Vec<Expr>, feature: &Feature) -> (r: Result<bool, EvalError>)
    ensures
        match r {
            Ok(b) => spec_layer_filter_matches(*filt, *feature) == Ok::<bool, EvalError>(b),
            Err(err) => spec_layer_filter_matches(*filt, *feature) == Err::<bool, EvalError>(err),
        },
{
    let v = match &feature.properties {
        Some(props) => eval_op(filt, props),
        None => {
            let empty: Vec<(String, PropertyValue)> = Vec::new();
            assert(empty@ =~= spec_props(*feature));
            eval_op(filt, &empty)
        },
    };
    match v {
        Ok(v) => Ok(truthy(&v)),
        Err(err) => Err(err),
    }
}

/// The fixed closed set of road classes that the fallback
/// classification highlights.
pub open spec fn spec_is_road_class(s: Seq<char>) -> bool {
    ||| s == "motorway"@
    ||| s == "trunk"@
    ||| s == "primary"@
    ||| s == "secondary"@
    ||| s == "tertiary"@
    ||| s == "minor"@
    ||| s == "track"@
}

/// The fallback classification: whether the feature's `class` attribute
/// is a string naming one of the fixed road classes.
pub open spec fn spec_matches_pattern(f: Feature) -> bool {
    match spec_get_string_property(f, "class"@) {
        Some(s) => spec_is_road_class(s),
        None => false,
    }
}

/// Classifies a feature by the fixed road-class set: true exactly when
/// its `class` attribute is one of `motorway`, `trunk`, `primary`,
/// `secondary`, `tertiary`, `minor`, `track`.
pub fn matches_pattern(feature: &Feature) -> (r: bool)
    ensures
        r == spec_matches_pattern(*feature),
{
    let class_key = string_from_lit("class");
    match crate::tile::expression_get(&class_key, feature) {
        None => false,
        Some(class) => string_eq_lit(&class, "motorway") || string_eq_lit(&class, "trunk")
            || string_eq_lit(&class, "primary") || string_eq_lit(&class, "secondary")
            || string_eq_lit(&class, "tertiary") || string_eq_lit(&class, "minor")
            || string_eq_lit(&class, "track"),
    }
}

/// The shape of the explicit `in` filter over `get("class")` that is
/// equivalent to the fallback classification.
pub open spec fn spec_is_road_class_filter(e: Expr) -> bool {
    &&& e matches Expr::Sequence(v)
    &&& v@.len() == 9
    &&& v@[0] matches Expr::String(op) && op@ == "in"@
    &&& v@[1] matches Expr::Sequence(g) && {
        &&& g@.len() == 2
        &&& g@[0] matches Expr::String(gop) && gop@ == "get"@
        &&& g@[1] matches Expr::String(key) && key@ == "class"@
    }
    &&& v@[2] matches Expr::String(c) && c@ == "motorway"@
    &&& v@[3] matches Expr::String(c) && c@ == "trunk"@
    &&& v@[4] matches Expr::String(c) && c@ == "primary"@
    &&& v@[5] matches Expr::String(c) && c@ == "secondary"@
    &&& v@[6] matches Expr::String(c) && c@ == "tertiary"@
    &&& v@[7] matches Expr::String(c) && c@ == "minor"@
    &&& v@[8] matches Expr::String(c) && c@ == "track"@
}

/// Builds the explicit membership filter over `get("class")` for the
/// fixed road-class set.
pub fn road_class_filter() -> (e: Expr)
    ensures
        spec_is_road_class_filter(e),
{
    let mut getter: Vec<Expr> = Vec::new();
    getter.push(Expr::String(string_from_lit("get")));
    getter.push(Expr::String(string_from_lit("class")));
    let mut v: Vec<Expr> = Vec::new();
    v.push(Expr::String(string_from_lit("in")));
    v.push(Expr::Sequence(getter));
    v.push(Expr::String(string_from_lit("motorway")));
    v.push(Expr::String(string_from_lit("trunk")));
    v.push(Expr::String(string_from_lit("primary")));
    v.push(Expr::String(string_from_lit("secondary")));
    v.push(Expr::String(string_from_lit("tertiary")));
    v.push(Expr::String(string_from_lit("minor")));
    v.push(Expr::String(string_from_lit("track")));
    Expr::Sequence(v)
}

/// The fallback road-class classification and the explicit `in` filter
/// over `get("class")` classify every feature identically: the filter
/// evaluates without error, and its truth is exactly the
/// classification's answer.
pub proof fn lemma_road_filter_equivalence(e: Expr, f: Feature)
    requires
        spec_is_road_class_filter(e),
    ensures
        spec_filter_matches(e, f) == Ok::<bool, EvalError>(spec_matches_pattern(f)),
{
    reveal_strlit("in");
    reveal_strlit("get");
    reveal_strlit("class");
    reveal_strlit("==");
    reveal_strlit("!=");
    reveal_strlit("motorway");
    reveal_strlit("trunk");
    reveal_strlit("primary");
    reveal_strlit("secondary");
    reveal_strlit("tertiary");
    reveal_strlit("minor");
    reveal_strlit("track");
    let v = e->Sequence_0;
    let g = v@[1]->Sequence_0;
    let props = spec_props(f);
    assert(spec_eval(e, props) == spec_eval_op(v@, props));
    assert(spec_eval(v@[1], props) == spec_eval_op(g@, props));
    assert(spec_eval_op(g@, props) == Ok::<ValueV, EvalError>(spec_get_value(props, "class"@)));
    let needle = spec_get_value(props, "class"@);
    let op = v@[0]->String_0;
    assert(op@ == "in"@);
    assert("in"@.len() == 2);
    assert("get"@.len() == 3);
    assert("=="@.len() == 2);
    assert("=="@[0] == '=');
    assert("in"@[0] == 'i');
    assert("!="@[0] == '!');
    assert(op@ != "get"@ && op@ != "=="@ && op@ != "!="@);
    assert(spec_eval(v@[1], props) == Ok::<ValueV, EvalError>(needle));
    assert(v@.len() == 9);
    assert(spec_eval_op(v@, props) == match spec_in_list(v@, 2, needle, props) {
        Err(err) => Err::<ValueV, EvalError>(err),
        Ok(b) => Ok::<ValueV, EvalError>(ValueV::Bool(b)),
    });
    reveal_with_fuel(spec_in_list, 9);
    assert(spec_in_list(v@, 2, needle, props) == Ok::<bool, EvalError>(
        spec_matches_pattern(f),
    )) by {
        match spec_lookup(props, "class"@) {
            Some(PropertyValue::Str(s)) => {
                assert(needle == ValueV::Str(s@));
            },
            _ => {
                assert(!(needle matches ValueV::Str(_)));
            },
        }
    }
}

} // verus!
