use ctxmap::new_key;
use ctxmap::new_key_without_default;
use ctxmap::CtxMap;
use ctxmap::Key;
use ctxmap::KeyMut;
use ctxmap::RawKey;
use ctxmap::RawKeyMut;
use ctxmap::Schema;
use ctxmap::SchemaData;
use std::fmt::Display;
use std::fmt::Formatter;
use std::mem::swap;

struct TestSchema;

impl Schema for TestSchema {}

/// A value of one of the types that the keys of `TestSchema` stand for.
#[derive(Clone, Debug, PartialEq)]
enum Value {
    Byte(u8),
    Number(i32),
    Text(String),
    Literal(&'static str),
}

impl Display for Value {
    fn fmt(&self, f: &mut Formatter<'_>) -> std::fmt::Result {
        match self {
            Value::Byte(byte) => byte.fmt(f),
            Value::Number(number) => number.fmt(f),
            Value::Text(text) => text.fmt(f),
            Value::Literal(literal) => literal.fmt(f),
        }
    }
}

fn key_with<T: 'static>(
    schema: &mut SchemaData<TestSchema>,
    init: impl Fn() -> T + Send + Sync + 'static,
) -> Key<TestSchema, T, false> {
    assert!(schema.slot_count() < usize::MAX);
    new_key(RawKey::new_with_default(schema, init))
}

fn key_mut_with<T: 'static>(
    schema: &mut SchemaData<TestSchema>,
    init: impl Fn() -> T + Send + Sync + 'static,
) -> KeyMut<TestSchema, T> {
    assert!(schema.slot_count() < usize::MAX);
    new_key(RawKeyMut::new_with_default_mut(schema, init))
}

#[test]
fn ctx_map_new() {
    let mut schema = SchemaData::new();
    let key_x = key_with(&mut schema, || 10u8);
    let mut m = CtxMap::new(&schema);
    assert_eq!(*m.index(&key_x), 10);
}

#[test]
fn ctx_map_with() {
    let mut schema = SchemaData::new();
    let key_x = key_with(&mut schema, || 10u8);
    let mut m = CtxMap::new(&schema);
    m.with(&key_x, &20, |m| {
        assert_eq!(*m.index(&key_x), 20);
    });
    assert_eq!(*m.index(&key_x), 10);
}

#[test]
fn ctx_map_with_nest() {
    let mut schema = SchemaData::new();
    let key_x = key_with(&mut schema, || 10u8);
    let mut m = CtxMap::new(&schema);
    m.with(&key_x, &20, |m| {
        assert_eq!(*m.index(&key_x), 20);
        m.with(&key_x, &30, |m| {
            assert_eq!(*m.index(&key_x), 30);
        });
        assert_eq!(*m.index(&key_x), 20);
    });
    assert_eq!(*m.index(&key_x), 10);
}

#[test]
fn test_new() {
    let mut schema = SchemaData::new();
    let key_x = key_with(&mut schema, || Value::Byte(10));
    let key_y = key_with(&mut schema, || Value::Number(5));
    let key_many_0: Key<TestSchema, Value, false> = new_key_without_default(&mut schema);
    let key_many_1 = key_with(&mut schema, || Value::Byte(10));
    let key_str = key_with(&mut schema, || Value::Literal("abc"));
    let key_string = key_with(&mut schema, || Value::Text(format!("abc-{}", 1)));

    let mut m = CtxMap::new(&schema);
    assert_eq!(*m.index(&key_x), Value::Byte(10));
    assert_eq!(m.index(&key_y).to_string(), "5");

    assert!(m.get(&key_many_0).is_none());
    assert_eq!(*m.index(&key_many_1), Value::Byte(10));
    assert_eq!(m.index(&key_str).to_string(), "abc");
    assert_eq!(m.index(&key_string).to_string(), "abc-1");
}

#[test]
fn test_with() {
    let mut schema = SchemaData::new();
    let key_x = key_with(&mut schema, || 10u8);
    let key_y = key_with(&mut schema, || 5u8);
    let mut m = CtxMap::new(&schema);
    m.with(&key_x, &20, |m| {
        assert_eq!(*m.index(&key_x), 20);
    });
    assert_eq!(*m.index(&key_x), 10);
    assert_eq!(*m.index(&key_y), 5);
}

#[test]
fn with_mut() {
    let mut schema = SchemaData::new();
    let key_x = key_with(&mut schema, || 10u8);
    let mut_0: KeyMut<TestSchema, u8> = new_key_without_default(&mut schema);
    let mut_1 = key_mut_with(&mut schema, || 10u8);
    let mut m = CtxMap::new(&schema);
    assert!(m.get_mut(&mut_0).is_none());
    m.with_mut(&mut_1, &mut 20, |m| {
        assert_eq!(*m.index(&mut_1), 20);
        *m.index_mut(&mut_1) = 30;
        assert_eq!(*m.index(&mut_1), 30);
    });
    assert_eq!(*m.index(&key_x), 10);
}

#[test]
fn with_mut_key_immut() {
    let mut schema = SchemaData::new();
    let key_x = key_with(&mut schema, || 10u8);
    let mut m = CtxMap::new(&schema);
    m.with_mut(&key_x, &mut 20, |m| {
        assert_eq!(*m.index(&key_x), 20);
    });
    assert_eq!(*m.index(&key_x), 10);
}

#[test]
fn test_with_nest() {
    let mut schema = SchemaData::new();
    let key_x = key_with(&mut schema, || 10u8);
    let key_many_1 = key_with(&mut schema, || 10u8);
    let mut m = CtxMap::new(&schema);
    m.with(&key_x, &20, |m| {
        assert_eq!(*m.index(&key_x), 20);
        m.with(&key_x, &30, |m| {
            assert_eq!(*m.index(&key_x), 30);
        });
        assert_eq!(*m.index(&key_x), 20);
    });
    assert_eq!(*m.index(&key_x), 10);
    assert_eq!(*m.index(&key_many_1), 10);
}

#[test]
fn test_with_dst() {
    let mut schema = SchemaData::new();
    let key_y = key_with(&mut schema, || Value::Number(5));
    let mut m = CtxMap::new(&schema);
    m.with(&key_y, &Value::Number(100), |m| {
        assert_eq!(m.index(&key_y).to_string(), "100");
    });
    m.with(&key_y, &Value::Text(String::from("abc")), |m| {
        assert_eq!(m.index(&key_y).to_string(), "abc");
    });
    m.with(&key_y, &Value::Literal("def"), |m| {
        assert_eq!(m.index(&key_y).to_string(), "def");
    });
    assert_eq!(m.index(&key_y).to_string(), "5");
}

#[test]
fn test_with_str() {
    let mut schema = SchemaData::new();
    let key_str = key_with(&mut schema, || String::from("abc"));
    let mut m = CtxMap::new(&schema);
    m.with(&key_str, &String::from("zzz"), |m| {
        assert_eq!(m.index(&key_str), "zzz");
    });
    assert_eq!(m.index(&key_str), "abc");
}

#[test]
fn test_in_func_key() {
    let mut schema = SchemaData::new();
    let _key_x = key_with(&mut schema, || 10u8);
    let mut m = CtxMap::new(&schema);
    let key_a = key_with(&mut schema, || 99u8);
    assert_eq!(*m.index(&key_a), 99);
}

#[test]
fn test_swap() {
    let mut schema = SchemaData::new();
    let key_a = key_with(&mut schema, || 1u8);
    let mut m0 = CtxMap::new(&schema);
    let mut m1 = CtxMap::new(&schema);

    m0.with(&key_a, &2, |m0| {
        swap(&mut m0.view(), &mut m1.view());
    });
    assert_eq!(*m0.index(&key_a), 1);
    assert_eq!(*m1.index(&key_a), 1);
}
