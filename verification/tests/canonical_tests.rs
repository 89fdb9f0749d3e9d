use perp_cycle::params::canonicalize;
use perp_cycle::params::i64_to_dec;
use perp_cycle::params::Param;
use perp_cycle::params::ParamValue;
use perp_cycle::text::str_lt;
use perp_cycle::text::str_starts_with;
use perp_cycle::text::u64_to_dec;

fn p(key: &str, value: ParamValue) -> Param {
    Param { key: key.to_string(), value }
}

fn s(v: &str) -> ParamValue {
    ParamValue::Str(v.to_string())
}

#[test]
fn canonical_order_params_exact() {
    let params = vec![
        p("symbol", s("APT_USDC_PERP")),
        p("side", s("Ask")),
        p("orderType", s("Limit")),
        p("quantity", s("100.0")),
        p("price", s("3.19")),
        p("postOnly", ParamValue::Bool(true)),
    ];
    let c = canonicalize(&params);
    assert_eq!(
        c,
        "orderType=Limit&postOnly=true&price=3.19&quantity=100.0&side=Ask&symbol=APT_USDC_PERP"
    );
}

#[test]
fn canonical_is_order_independent() {
    let a = vec![
        p("symbol", s("APT_USDC_PERP")),
        p("side", s("Bid")),
        p("reduceOnly", ParamValue::Bool(true)),
        p("quantity", s("42.5")),
    ];
    let b = vec![
        p("quantity", s("42.5")),
        p("reduceOnly", ParamValue::Bool(true)),
        p("symbol", s("APT_USDC_PERP")),
        p("side", s("Bid")),
    ];
    assert_eq!(canonicalize(&a), canonicalize(&b));
    assert_eq!(
        canonicalize(&a),
        "quantity=42.5&reduceOnly=true&side=Bid&symbol=APT_USDC_PERP"
    );
}

#[test]
fn canonical_drops_null_like_fields() {
    let params = vec![
        p("symbol", s("X_Y")),
        p("ignored", ParamValue::Skipped),
        p("leverageLimit", s("1.0")),
    ];
    assert_eq!(canonicalize(&params), "leverageLimit=1.0&symbol=X_Y");
}

#[test]
fn canonical_renders_numbers_and_false() {
    let params = vec![
        p("count", ParamValue::Int(-5)),
        p("big", ParamValue::Int(9007199254740993)),
        p("flag", ParamValue::Bool(false)),
    ];
    assert_eq!(canonicalize(&params), "big=9007199254740993&count=-5&flag=false");
}

#[test]
fn canonical_of_empty_is_empty() {
    let params: Vec<Param> = Vec::new();
    assert_eq!(canonicalize(&params), "");
}

#[test]
fn decimal_rendering_exact() {
    assert_eq!(u64_to_dec(0), "0");
    assert_eq!(u64_to_dec(5000), "5000");
    assert_eq!(u64_to_dec(18446744073709551615), "18446744073709551615");
    assert_eq!(i64_to_dec(-1), "-1");
    assert_eq!(i64_to_dec(i64::MIN), "-9223372036854775808");
    assert_eq!(i64_to_dec(i64::MAX), "9223372036854775807");
}

#[test]
fn lexicographic_comparison() {
    assert!(str_lt("postOnly", "price"));
    assert!(str_lt("side", "symbol"));
    assert!(!str_lt("symbol", "side"));
    assert!(str_lt("order", "orderType"));
    assert!(!str_lt("abc", "abc"));
}

#[test]
fn prefix_test() {
    assert!(str_starts_with("bookTicker.APT_USDC_PERP", "bookTicker"));
    assert!(!str_starts_with("account.orderUpdate", "bookTicker"));
    assert!(str_starts_with("x", ""));
    assert!(!str_starts_with("", "x"));
}
