use std::borrow::Cow;

use esql::{expr, in_expr, query, trusted, ArgFormat, QueryBuffer, TrustedString, Type};

fn lit(text: &'static str) -> QueryBuffer<'static> {
    QueryBuffer::from_trusted(TrustedString::from_static(text))
}

fn with(text: &'static str, args: Vec<Type<'static>>) -> QueryBuffer<'static> {
    QueryBuffer::with_args(TrustedString::from_static(text), args)
}

fn ints(values: &[i32]) -> Vec<Type<'static>> {
    values.iter().map(|v| Type::from(*v)).collect()
}

fn scenario_one() -> esql::Query<'static, esql::Where> {
    query(lit("SELECT a,b,c FROM foobar"))
        .wh(lit("foo = 'bar'"))
        .and(with("bar = ?", ints(&[1])))
        .and(
            expr(with("d = ?", ints(&[10])))
                .or(expr(with("e != ?", ints(&[20]))))
                .into_buffer(),
        )
}

#[test]
fn indexed_rendering_of_first_scenario() {
    let (text, args) = scenario_one().build(ArgFormat::Indexed);
    assert_eq!(
        text,
        "SELECT a,b,c FROM foobar WHERE foo = 'bar' AND bar = $1 AND (d = $2 OR e != $3)"
    );
    assert_eq!(args, ints(&[1, 10, 20]));
}

#[test]
fn indexed_rendering_keeps_order() {
    let q = query(with("a = ? AND b = ? AND c = ?", ints(&[10, 20, 30])));
    let (text, args) = q.build(ArgFormat::Indexed);
    assert_eq!(text, "a = $1 AND b = $2 AND c = $3");
    assert_eq!(args, ints(&[10, 20, 30]));
}

#[test]
fn indexed_rendering_past_nine_markers() {
    let values: Vec<i32> = (1..=12).collect();
    let q = query(lit("SELECT * FROM t")).wh(in_expr(lit("id"), ints(&values)));
    let (text, args) = q.build(ArgFormat::Indexed);
    assert_eq!(
        text,
        "SELECT * FROM t WHERE id IN ($1,$2,$3,$4,$5,$6,$7,$8,$9,$10,$11,$12)"
    );
    assert_eq!(args, ints(&values));
}

#[test]
fn indexed_rendering_keeps_other_characters() {
    let q = query(lit("SELECT 'é' || name FROM t"));
    let (text, args) = q.build(ArgFormat::Indexed);
    assert_eq!(text, "SELECT 'é' || name FROM t");
    assert!(args.is_empty());
}

#[test]
fn question_mark_rendering_has_one_marker_per_argument() {
    let (text, args) = scenario_one().build(ArgFormat::QuestionMark);
    assert_eq!(text.chars().filter(|c| *c == '?').count(), args.len());
    assert_eq!(args.len(), 3);
}

#[test]
fn concatenation_is_associative() {
    let glue = TrustedString::from_static(" ");
    let left = with("a = ?", ints(&[1]))
        .concat(&glue, with("b = ?", ints(&[2])))
        .concat(&glue, with("c = ?", ints(&[3])));
    let right = with("a = ?", ints(&[1])).concat(
        &glue,
        with("b = ?", ints(&[2])).concat(&glue, with("c = ?", ints(&[3]))),
    );
    let left = query(left).build(ArgFormat::QuestionMark);
    let right = query(right).build(ArgFormat::QuestionMark);
    assert_eq!(left, right);
    assert_eq!(left.0, "a = ? b = ? c = ?");
    assert_eq!(left.1, ints(&[1, 2, 3]));
}

#[test]
fn or_group_is_parenthesised_under_and() {
    let e = expr(lit("x")).or(expr(lit("y"))).and(expr(lit("z")));
    assert_eq!(query(e.into_buffer()).to_string(), "((x OR y) AND z)");
}

#[test]
fn and_chain_needs_no_parentheses() {
    let e = expr(lit("x")).and(expr(lit("y"))).and(expr(lit("z")));
    assert_eq!(query(e.into_buffer()).to_string(), "(x AND y AND z)");
}

#[test]
fn right_operand_is_grouped_too() {
    let e = expr(lit("x")).and(expr(lit("y")).or(expr(lit("z"))));
    assert_eq!(query(e.into_buffer()).to_string(), "(x AND (y OR z))");
    let e = expr(lit("x")).or(expr(lit("y")).or(expr(lit("z"))));
    assert_eq!(query(e.into_buffer()).to_string(), "(x OR y OR z)");
}

#[test]
fn negation_wraps_the_condition() {
    let e = expr(with("a = ?", ints(&[1]))).or(expr(lit("b"))).not();
    let (text, args) = query(e.into_buffer()).build(ArgFormat::QuestionMark);
    assert_eq!(text, "(NOT (a = ? OR b))");
    assert_eq!(args, ints(&[1]));
}

#[test]
fn expression_arguments_follow_text_order() {
    let e = expr(with("a = ?", ints(&[1])))
        .and(expr(with("b = ? OR c = ?", ints(&[2, 3]))));
    let (text, args) = query(e.into_buffer()).build(ArgFormat::Indexed);
    assert_eq!(text, "(a = $1 AND b = $2 OR c = $3)");
    assert_eq!(args, ints(&[1, 2, 3]));
}

#[test]
fn empty_in_list_is_always_false() {
    let b = in_expr(with("lower(?)", ints(&[7])), Vec::new());
    let (text, args) = query(b).build(ArgFormat::QuestionMark);
    assert_eq!(text, "1=0");
    assert!(args.is_empty());
}

#[test]
fn in_list_with_one_value() {
    let b = in_expr(with("coalesce(x, ?)", ints(&[0])), ints(&[5]));
    let (text, args) = query(b).build(ArgFormat::QuestionMark);
    assert_eq!(text, "coalesce(x, ?) IN (?)");
    assert_eq!(args, ints(&[0, 5]));
}

#[test]
fn having_stages() {
    let q = query(lit("SELECT a, count(*) FROM t GROUP BY a")).having(with("count(*) > ?", ints(&[2])));
    assert_eq!(
        q.build(ArgFormat::Indexed),
        (
            "SELECT a, count(*) FROM t GROUP BY a HAVING count(*) > $1".to_string(),
            ints(&[2])
        )
    );

    let q = query(lit("SELECT a FROM t"))
        .wh(with("b = ?", ints(&[1])))
        .or(with("c = ?", ints(&[2])))
        .having(lit("count(*) > 1"))
        .append(lit("ORDER BY a"))
        .append(with("LIMIT ?", ints(&[10])));
    assert_eq!(
        q.build(ArgFormat::QuestionMark),
        (
            "SELECT a FROM t WHERE b = ? OR c = ? HAVING count(*) > 1 ORDER BY a LIMIT ?"
                .to_string(),
            ints(&[1, 2, 10])
        )
    );
}

#[test]
fn suffix_after_where() {
    let q = query(lit("SELECT * FROM t"))
        .wh(lit("a"))
        .append(lit("ORDER BY id"))
        .append(lit("LIMIT 1"));
    assert_eq!(q.to_string(), "SELECT * FROM t WHERE a ORDER BY id LIMIT 1");
}

#[test]
fn checked_buffer_rejects_mismatch() {
    assert!(QueryBuffer::checked(TrustedString::from_static("a = ? AND b = ?"), ints(&[1])).is_none());
    assert!(QueryBuffer::checked(TrustedString::from_static("a = 1"), ints(&[1])).is_none());
    let b = QueryBuffer::checked(TrustedString::from_static("a = ? AND b = ?"), ints(&[1, 2]))
        .expect("counts match");
    assert_eq!(
        query(b).build(ArgFormat::Indexed),
        ("a = $1 AND b = $2".to_string(), ints(&[1, 2]))
    );
}

#[test]
fn trusted_text() {
    let field = String::from("username");
    let t = trusted(format!("{field} as my_field"));
    assert_eq!(t.to_string(), "username as my_field");
    let q = query(lit("SELECT")).append(QueryBuffer::from_trusted(t));
    assert_eq!(q.to_string(), "SELECT username as my_field");
}

#[test]
fn values_convert_to_their_variant() {
    assert_eq!(Type::from(true), Type::Bool(true));
    assert_eq!(Type::from(-3i8), Type::Int8(-3));
    assert_eq!(Type::from(-3i16), Type::Int16(-3));
    assert_eq!(Type::from(-3i32), Type::Int32(-3));
    assert_eq!(Type::from(-3i64), Type::Int64(-3));
    assert_eq!(Type::from(-3isize), Type::Isize(-3));
    assert_eq!(Type::from(3u8), Type::UInt8(3));
    assert_eq!(Type::from(3u16), Type::UInt16(3));
    assert_eq!(Type::from(3u32), Type::UInt32(3));
    assert_eq!(Type::from(3u64), Type::UInt64(3));
    assert_eq!(Type::from(3usize), Type::Usize(3));
    assert_eq!(Type::from("abc"), Type::String(Cow::Borrowed("abc")));
    assert_eq!(Type::from(String::from("abc")), Type::String(Cow::Owned(String::from("abc"))));
    assert_eq!(Type::Float(1.5f32.to_bits()), Type::Float(0x3fc0_0000));
    assert_eq!(Type::Double(1.5f64.to_bits()), Type::Double(0x3ff8_0000_0000_0000));
}

#[test]
fn optional_values_convert() {
    assert_eq!(Type::from(None::<i32>), Type::Null);
    assert_eq!(Type::from(Some(5u8)), Type::UInt8(5));
    assert_eq!(Type::from(Some("x")), Type::String(Cow::Borrowed("x")));
}

#[test]
fn extension_values_convert() {
    assert_eq!(
        Type::from(serde_json::Value::Bool(true)),
        Type::Json(serde_json::Value::Bool(true))
    );
    assert_eq!(
        Type::from(time::OffsetDateTime::UNIX_EPOCH),
        Type::OffsetDateTime(time::OffsetDateTime::UNIX_EPOCH)
    );
    assert_eq!(Type::from(uuid::Uuid::nil()), Type::Uuid(uuid::Uuid::nil()));
}

#[test]
fn and_group_joins_where_chain_without_parentheses() {
    let q = query(lit("S"))
        .wh(lit("w = 0"))
        .and_expr(expr(with("x = ?", ints(&[1]))).and(expr(with("y = ?", ints(&[2])))));
    assert_eq!(
        q.build(ArgFormat::QuestionMark),
        ("S WHERE w = 0 AND x = ? AND y = ?".to_string(), ints(&[1, 2]))
    );
}

#[test]
fn or_group_under_and_keeps_parentheses() {
    let q = query(lit("S"))
        .wh(lit("w = 0"))
        .and_expr(expr(with("x = ?", ints(&[1]))).or(expr(with("y = ?", ints(&[2])))));
    assert_eq!(
        q.build(ArgFormat::Indexed),
        ("S WHERE w = 0 AND (x = $1 OR y = $2)".to_string(), ints(&[1, 2]))
    );
}

#[test]
fn groups_joined_with_or() {
    let q = query(lit("S"))
        .wh(lit("w = 0"))
        .or_expr(expr(lit("x")).or(expr(lit("y"))))
        .or_expr(expr(lit("a")).and(expr(lit("b"))))
        .or_expr(expr(lit("c")));
    assert_eq!(q.to_string(), "S WHERE w = 0 OR x OR y OR (a AND b) OR c");
}

#[test]
fn numbered_text_has_one_dollar_per_argument() {
    let (text, args) = scenario_one().build(ArgFormat::Indexed);
    assert_eq!(text.chars().filter(|c| *c == '?').count(), 0);
    assert_eq!(text.chars().filter(|c| *c == '$').count(), args.len());
}
