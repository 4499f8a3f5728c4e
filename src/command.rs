//! Command specifications and the argument validator.
use vstd::prelude::*;
use crate::text::{dec_nat, parse_i32, parse_i32_spec, format_u64};

verus! {

/// The declared type of a positional parameter.
#[derive(Clone, Copy, Debug, PartialEq, Eq, Structural)]
pub enum ParamType {
    /// Any token, unchanged.
    Text,
    /// A signed 32-bit integer.
    Integer,
    /// A floating-point number.
    Float,
    /// A filesystem path, taken as an opaque string.
    Path,
    /// An IPv4 or IPv6 address.
    IpAddr,
}

/// The name under which a parameter type is shown.
pub open spec fn type_label(t: ParamType) -> Seq<char> {
    match t {
        ParamType::Text => "String"@,
        ParamType::Integer => "i32"@,
        ParamType::Float => "f64"@,
        ParamType::Path => "PathBuf"@,
        ParamType::IpAddr => "IpAddr"@,
    }
}

impl ParamType {
    /// The name under which this type is shown in help and errors.
    pub fn label(&self) -> (r: String)
        ensures
            r@ == type_label(*self),
    {
        match self {
            ParamType::Text => "String".to_owned(),
            ParamType::Integer => "i32".to_owned(),
            ParamType::Float => "f64".to_owned(),
            ParamType::Path => "PathBuf".to_owned(),
            ParamType::IpAddr => "IpAddr".to_owned(),
        }
    }
}

/// A positional parameter: its display name (empty when anonymous) and type.
#[derive(Clone, Debug)]
pub struct Param {
    pub name: String,
    pub ty: ParamType,
}

/// What a token is, as decided by parsers this library does not hold:
/// whether it reads as a floating-point number and as an IP address.
#[derive(Clone, Copy, Debug, PartialEq, Eq, Structural)]
pub struct TokenChecks {
    pub float_ok: bool,
    pub ip_ok: bool,
}

/// A validated argument.
#[derive(Clone, Debug)]
pub enum ArgValue {
    Text(String),
    Integer(i32),
    /// A token that reads as a floating-point number.
    Float(String),
    Path(String),
    /// A token that reads as an IP address.
    Ip(String),
}

/// Why a token sequence does not fit a parameter list.
#[derive(Clone, Debug)]
pub enum ValidationError {
    /// Too few or too many tokens.
    Arity { got: usize, expected: usize },
    /// The token at `position` does not read as its declared type.
    BadValue { position: usize, token: String, expected: ParamType },
}

/// Whether `tok` is acceptable for a parameter of type `t`.
pub open spec fn token_fits(t: ParamType, tok: Seq<char>, chk: TokenChecks) -> bool {
    match t {
        ParamType::Integer => parse_i32_spec(tok).is_some(),
        ParamType::Float => chk.float_ok,
        ParamType::IpAddr => chk.ip_ok,
        _ => true,
    }
}

/// Whether `v` is the value that `tok` gives for a parameter of type `t`.
pub open spec fn value_of(t: ParamType, tok: Seq<char>, v: ArgValue) -> bool {
    match (t, v) {
        (ParamType::Text, ArgValue::Text(s)) => s@ == tok,
        (ParamType::Integer, ArgValue::Integer(n)) => parse_i32_spec(tok) == Some(n),
        (ParamType::Float, ArgValue::Float(s)) => s@ == tok,
        (ParamType::Path, ArgValue::Path(s)) => s@ == tok,
        (ParamType::IpAddr, ArgValue::Ip(s)) => s@ == tok,
        _ => false,
    }
}

/// Whether every one of the first `k` tokens fits its parameter.
pub open spec fn fit_upto(
    params: Seq<Param>,
    args: Seq<String>,
    checks: Seq<TokenChecks>,
    k: int,
) -> bool {
    forall|i: int| 0 <= i < k ==> token_fits(#[trigger] params[i].ty, args[i]@, checks[i])
}

/// The result of validating `args` against `params`.
pub open spec fn validation_ok(
    params: Seq<Param>,
    args: Seq<String>,
    checks: Seq<TokenChecks>,
    r: Result<Vec<ArgValue>, ValidationError>,
) -> bool {
    if args.len() != params.len() {
        r matches Err(ValidationError::Arity { got, expected })
            && got == args.len() && expected == params.len()
    } else if fit_upto(params, args, checks, params.len() as int) {
        r matches Ok(vals) && vals@.len() == params.len()
            && forall|i: int| 0 <= i < params.len() ==> value_of(#[trigger] params[i].ty, args[i]@, vals@[i])
    } else {
        r matches Err(ValidationError::BadValue { position, token, expected })
            && position < params.len()
            && fit_upto(params, args, checks, position as int)
            && !token_fits(params[position as int].ty, args[position as int]@, checks[position as int])
            && token@ == args[position as int]@
            && expected == params[position as int].ty
    }
}

/// Converts raw tokens into typed values, one per declared parameter.
pub fn validate_args(params: &Vec<Param>, args: &Vec<String>, checks: &Vec<TokenChecks>) -> (r: Result<
    Vec<ArgValue>,
    ValidationError,
>)
    requires
        checks@.len() == args@.len(),
    ensures
        validation_ok(params@, args@, checks@, r),
{
    if args.len() != params.len() {
        return Err(ValidationError::Arity { got: args.len(), expected: params.len() });
    }
    let mut vals: Vec<ArgValue> = Vec::new();
    let mut i: usize = 0;
    while i < params.len()
        invariant
            args@.len() == params@.len(),
            checks@.len() == args@.len(),
            i <= params@.len(),
            vals@.len() == i,
            fit_upto(params@, args@, checks@, i as int),
            forall|j: int| 0 <= j < i ==> value_of(#[trigger] params@[j].ty, args@[j]@, vals@[j]),
        decreases params@.len() - i,
    {
        let tok = &args[i];
        let ty = params[i].ty;
        let v = match ty {
            ParamType::Text => Some(ArgValue::Text(tok.clone())),
            ParamType::Path => Some(ArgValue::Path(tok.clone())),
            ParamType::Integer => match parse_i32(tok.as_str()) {
                Some(n) => Some(ArgValue::Integer(n)),
                None => None,
            },
            ParamType::Float => if checks[i].float_ok {
                Some(ArgValue::Float(tok.clone()))
            } else {
                None
            },
            ParamType::IpAddr => if checks[i].ip_ok {
                Some(ArgValue::Ip(tok.clone()))
            } else {
                None
            },
        };
        match v {
            Some(v) => {
                vals.push(v);
            },
            None => {
                return Err(ValidationError::BadValue { position: i, token: tok.clone(), expected: ty });
            },
        }
        i = i + 1;
    }
    Ok(vals)
}

/// The message that reports a validation error.
pub open spec fn validation_message(e: ValidationError) -> Seq<char> {
    match e {
        ValidationError::Arity { got, expected } => "wrong number of arguments: got "@ + dec_nat(
            got as nat,
        ) + ", expected "@ + dec_nat(expected as nat),
        ValidationError::BadValue { token, expected, .. } => "failed to parse argument value '"@
            + token@ + "': expected "@ + type_label(expected),
    }
}

impl ValidationError {
    /// The message that reports this error.
    pub fn message(&self) -> (r: String)
        ensures
            r@ == validation_message(*self),
    {
        match self {
            ValidationError::Arity { got, expected } => {
                let g = format_u64(*got as u64);
                let e = format_u64(*expected as u64);
                "wrong number of arguments: got ".to_owned().concat(g.as_str()).concat(
                    ", expected ",
                ).concat(e.as_str())
            },
            ValidationError::BadValue { token, expected, .. } => {
                let l = expected.label();
                "failed to parse argument value '".to_owned().concat(token.as_str()).concat(
                    "': expected ",
                ).concat(l.as_str())
            },
        }
    }
}

} // verus!
