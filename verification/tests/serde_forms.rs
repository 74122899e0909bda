//! The JSON forms of protocol types built on the library's unions. The
//! protocol types themselves, with their JSON forms, are written here.

use std::fmt::Debug;

use serde::de::{DeserializeOwned, Error as _};
use serde::ser::SerializeStruct;
use serde::{Deserialize, Deserializer, Serialize, Serializer};
use serde_json::Value;

use lsp::Or2;

fn ser<T: Serialize>(t: &T) -> String {
    serde_json::to_string(t).unwrap()
}

fn de<T: DeserializeOwned>(t: &str) -> T {
    serde_json::from_str(t).unwrap()
}

fn assert_serde<T: Serialize + DeserializeOwned + Debug>(value: &T, expected: &str) {
    assert_eq!(ser(value), expected);
    assert_eq!(format!("{:?}", de::<T>(expected)), format!("{:?}", value));
}

#[derive(Debug)]
enum PositionEncodingKind {
    Utf8,
    Utf16,
    Custom(String),
}

impl Serialize for PositionEncodingKind {
    fn serialize<S: Serializer>(&self, s: S) -> Result<S::Ok, S::Error> {
        match self {
            PositionEncodingKind::Utf8 => s.serialize_str("utf-8"),
            PositionEncodingKind::Utf16 => s.serialize_str("utf-16"),
            PositionEncodingKind::Custom(c) => s.serialize_str(c),
        }
    }
}

impl<'de> Deserialize<'de> for PositionEncodingKind {
    fn deserialize<D: Deserializer<'de>>(d: D) -> Result<Self, D::Error> {
        let s = String::deserialize(d)?;
        Ok(match s.as_str() {
            "utf-8" => PositionEncodingKind::Utf8,
            "utf-16" => PositionEncodingKind::Utf16,
            _ => PositionEncodingKind::Custom(s),
        })
    }
}

#[derive(Debug, Default)]
struct SaveOptions {
    include_text: Option<bool>,
}

#[derive(Debug, Default)]
struct TextDocumentSyncOptions {
    open_close: Option<bool>,
    will_save: Option<bool>,
    will_save_wait_until: Option<bool>,
    save: Option<Or2<bool, SaveOptions>>,
}

impl Serialize for SaveOptions {
    fn serialize<S: Serializer>(&self, s: S) -> Result<S::Ok, S::Error> {
        let mut st = s.serialize_struct("SaveOptions", 1)?;
        if let Some(v) = self.include_text {
            st.serialize_field("includeText", &v)?;
        }
        st.end()
    }
}

/// The union serialised as whichever value it holds.
struct Untagged<'a>(&'a Or2<bool, SaveOptions>);

impl Serialize for Untagged<'_> {
    fn serialize<S: Serializer>(&self, s: S) -> Result<S::Ok, S::Error> {
        match self.0 {
            Or2::A(b) => b.serialize(s),
            Or2::B(o) => o.serialize(s),
        }
    }
}

impl Serialize for TextDocumentSyncOptions {
    fn serialize<S: Serializer>(&self, s: S) -> Result<S::Ok, S::Error> {
        let mut st = s.serialize_struct("TextDocumentSyncOptions", 4)?;
        if let Some(v) = self.open_close {
            st.serialize_field("openClose", &v)?;
        }
        if let Some(v) = self.will_save {
            st.serialize_field("willSave", &v)?;
        }
        if let Some(v) = self.will_save_wait_until {
            st.serialize_field("willSaveWaitUntil", &v)?;
        }
        if let Some(v) = &self.save {
            st.serialize_field("save", &Untagged(v))?;
        }
        st.end()
    }
}

fn bool_field<E: serde::de::Error>(v: &Value, name: &str) -> Result<Option<bool>, E> {
    match v.get(name) {
        None => Ok(None),
        Some(Value::Bool(b)) => Ok(Some(*b)),
        Some(_) => Err(E::custom(format!("{name} is not a boolean"))),
    }
}

impl<'de> Deserialize<'de> for TextDocumentSyncOptions {
    fn deserialize<D: Deserializer<'de>>(d: D) -> Result<Self, D::Error> {
        let v = Value::deserialize(d)?;
        let save = match v.get("save") {
            None => None,
            // The first type of the union is tried first.
            Some(Value::Bool(b)) => Some(Or2::A(*b)),
            Some(o @ Value::Object(_)) => {
                Some(Or2::B(SaveOptions { include_text: bool_field(o, "includeText")? }))
            }
            Some(_) => return Err(D::Error::custom("save has neither form")),
        };
        Ok(TextDocumentSyncOptions {
            open_close: bool_field(&v, "openClose")?,
            will_save: bool_field(&v, "willSave")?,
            will_save_wait_until: bool_field(&v, "willSaveWaitUntil")?,
            save,
        })
    }
}

#[test]
fn string_enums_work() {
    let kinds = vec![
        PositionEncodingKind::Utf8,
        PositionEncodingKind::Utf16,
        PositionEncodingKind::Custom("foo".into()),
    ];
    assert_serde(&kinds, r#"["utf-8","utf-16","foo"]"#);
}

#[test]
fn or2_works() {
    assert_serde(
        &TextDocumentSyncOptions { save: Some(Or2::A(true)), ..Default::default() },
        r#"{"save":true}"#,
    );

    assert_serde(
        &TextDocumentSyncOptions { save: Some(Or2::B(SaveOptions::default())), ..Default::default() },
        r#"{"save":{}}"#,
    );

    assert_serde(
        &TextDocumentSyncOptions {
            save: Some(Or2::B(SaveOptions { include_text: Some(true), ..Default::default() })),
            ..Default::default()
        },
        r#"{"save":{"includeText":true}}"#,
    );
}
