//! The discovery mode: every connected device as a record, and each record
//! as one line of JSON for the operator to pick a device from.

use vstd::prelude::*;
use vstd::string::*;

verus! {

/// A discovered device. The manufacturer and the product are always
/// present: where the device names none, the record holds `N/A`.
#[derive(Debug, PartialEq, Eq)]
pub struct DeviceRecord {
    path: String,
    manufacturer: String,
    product: String,
}

/// A device record, with its text as characters.
pub struct DeviceRecordView {
    pub path: Seq<char>,
    pub manufacturer: Seq<char>,
    pub product: Seq<char>,
}

/// Why a record could not be rendered.
#[derive(Debug, Clone, PartialEq, Eq)]
pub enum RenderError {
    /// The JSON serializer has refused one of the fields; `message` is what
    /// it said.
    Json { message: String },
}

/// What stands for a name that the device does not give.
pub open spec fn absent() -> Seq<char> {
    "N/A"@
}

/// A name as a record holds it: the name itself, or `N/A` where there is
/// none or an empty one.
pub open spec fn normalized(name: Option<Seq<char>>) -> Seq<char> {
    match name {
        Some(text) => if text.len() == 0 {
            absent()
        } else {
            text
        },
        None => absent(),
    }
}

/// A name that may be missing, as characters.
pub open spec fn name_view(name: Option<String>) -> Option<Seq<char>> {
    match name {
        Some(text) => Some(text@),
        None => None,
    }
}

/// The record of a device with the given path and names.
pub open spec fn record_of(
    path: Seq<char>,
    manufacturer: Option<Seq<char>>,
    product: Option<Seq<char>>,
) -> DeviceRecordView {
    DeviceRecordView {
        path,
        manufacturer: normalized(manufacturer),
        product: normalized(product),
    }
}

fn normalize(name: Option<String>) -> (text: String)
    ensures
        text@ == normalized(name_view(name)),
        text@.len() > 0,
{
    proof {
        reveal_strlit("N/A");
    }
    match name {
        Some(text) => {
            if text.as_str().is_empty() {
                String::from_str("N/A")
            } else {
                text
            }
        },
        None => String::from_str("N/A"),
    }
}

impl View for DeviceRecord {
    type V = DeviceRecordView;

    closed spec fn view(&self) -> DeviceRecordView {
        DeviceRecordView {
            path: self.path@,
            manufacturer: self.manufacturer@,
            product: self.product@,
        }
    }
}

impl DeviceRecord {
    #[verifier::type_invariant]
    spec fn names_present(self) -> bool {
        self.manufacturer@.len() > 0 && self.product@.len() > 0
    }

    /// The record of the device under `path`, with the names that it gives
    /// of its manufacturer and of its product, if any.
    pub fn new(path: String, manufacturer: Option<String>, product: Option<String>) -> (record:
        DeviceRecord)
        ensures
            record@ == record_of(path@, name_view(manufacturer), name_view(product)),
    {
        DeviceRecord {
            path,
            manufacturer: normalize(manufacturer),
            product: normalize(product),
        }
    }

    /// The path under which the device can be opened.
    pub fn path(&self) -> (text: &str)
        ensures
            text@ == self@.path,
    {
        self.path.as_str()
    }

    /// The manufacturer's name, never empty.
    pub fn manufacturer(&self) -> (text: &str)
        ensures
            text@ == self@.manufacturer,
            text@.len() > 0,
    {
        proof {
            use_type_invariant(self);
        }
        self.manufacturer.as_str()
    }

    /// The product's name, never empty.
    pub fn product(&self) -> (text: &str)
        ensures
            text@ == self@.product,
            text@.len() > 0,
    {
        proof {
            use_type_invariant(self);
        }
        self.product.as_str()
    }
}

#[verifier::external_type_specification]
#[verifier::external_body]
pub struct ExJsonError(serde_json::Error);

/// What the JSON serializer makes of `text`: the JSON string literal that
/// stands for it, which is the text between double quotes, with the
/// characters escaped that JSON does not take as they are; or nothing,
/// where the serializer fails on the text.
pub uninterp spec fn json_string(text: Seq<char>) -> Option<Seq<char>>;

/// `serde_json::to_string` on a string slice. Believed of it: whether it
/// succeeds and what it then returns depend on the text alone, so that the
/// same text has the same outcome every time.
#[verifier::external_body]
fn to_json_string(text: &str) -> (r: Result<String, serde_json::Error>)
    ensures
        match r {
            Ok(literal) => json_string(text@) == Some(literal@),
            Err(_) => json_string(text@) is None,
        },
{
    serde_json::to_string(text)
}

/// The `Display` text of a `serde_json::Error`. Nothing is believed of it.
#[verifier::external_body]
fn json_error_message(error: &serde_json::Error) -> (message: String) {
    format!("{}", error)
}

/// The line of a device whose fields have the given JSON string literals:
/// one JSON object with the members `path`, `manufacturer` and `product`,
/// in that order and without white space.
pub open spec fn object_text(
    path_literal: Seq<char>,
    manufacturer_literal: Seq<char>,
    product_literal: Seq<char>,
) -> Seq<char> {
    "{\"path\":"@ + path_literal + ",\"manufacturer\":"@ + manufacturer_literal
        + ",\"product\":"@ + product_literal + "}"@
}

/// The line of a record: the object made of the literals of its three
/// fields, or nothing, where the serializer fails on one of them.
pub open spec fn json_line_text(record: DeviceRecordView) -> Option<Seq<char>> {
    match (
        json_string(record.path),
        json_string(record.manufacturer),
        json_string(record.product),
    ) {
        (Some(path), Some(manufacturer), Some(product)) => Some(
            object_text(path, manufacturer, product),
        ),
        _ => None,
    }
}

/// Whether `r` is the rendering that `expected` asks for: the line itself
/// where there is one, a failure where there is none.
pub open spec fn renders(r: Result<String, RenderError>, expected: Option<Seq<char>>) -> bool {
    match r {
        Ok(text) => expected == Some(text@),
        Err(_) => expected is None,
    }
}

/// Writes the JSON string literal of `text`. It fails exactly where the
/// serializer does, and then says why the serializer gave none.
pub fn literal(text: &str) -> (r: Result<String, RenderError>)
    ensures
        renders(r, json_string(text@)),
{
    match to_json_string(text) {
        Ok(literal) => Ok(literal),
        Err(error) => Err(RenderError::Json { message: json_error_message(&error) }),
    }
}

/// Puts the line of a device together from the JSON string literals of its
/// fields. Where a literal is missing, the line is missing for the reason
/// that the first missing literal gives.
pub fn assemble(
    path: Result<String, RenderError>,
    manufacturer: Result<String, RenderError>,
    product: Result<String, RenderError>,
) -> (r: Result<String, RenderError>)
    ensures
        match (path, manufacturer, product) {
            (Ok(p), Ok(m), Ok(q)) => r matches Ok(line) && line@ == object_text(p@, m@, q@),
            (Err(error), _, _) => r == Err::<String, RenderError>(error),
            (Ok(_), Err(error), _) => r == Err::<String, RenderError>(error),
            (Ok(_), Ok(_), Err(error)) => r == Err::<String, RenderError>(error),
        },
{
    match path {
        Err(error) => Err(error),
        Ok(p) => match manufacturer {
            Err(error) => Err(error),
            Ok(m) => match product {
                Err(error) => Err(error),
                Ok(q) => {
                    let line = String::from_str("{\"path\":").concat(p.as_str()).concat(
                        ",\"manufacturer\":",
                    ).concat(m.as_str()).concat(",\"product\":").concat(q.as_str()).concat("}");
                    Ok(line)
                },
            },
        },
    }
}

impl DeviceRecord {
    /// Renders the record as one line of JSON. It fails exactly where the
    /// serializer fails on one of the three fields.
    pub fn to_json(&self) -> (r: Result<String, RenderError>)
        ensures
            renders(r, json_line_text(self@)),
    {
        assemble(
            literal(self.path.as_str()),
            literal(self.manufacturer.as_str()),
            literal(self.product.as_str()),
        )
    }
}

/// Renders every record, one line for each and in their order. A record
/// that cannot be rendered leaves its reason in the place of its line and
/// keeps no other record from being rendered.
pub fn discovery_lines(records: &Vec<DeviceRecord>) -> (lines: Vec<Result<String, RenderError>>)
    ensures
        lines@.len() == records@.len(),
        forall|i: int|
            0 <= i < records@.len() ==> renders(#[trigger] lines@[i], json_line_text(records@[i]@)),
{
    let mut lines: Vec<Result<String, RenderError>> = Vec::new();
    let mut index: usize = 0;
    while index < records.len()
        invariant
            index <= records@.len(),
            lines@.len() == index,
            forall|i: int|
                0 <= i < index ==> renders(#[trigger] lines@[i], json_line_text(records@[i]@)),
        decreases records@.len() - index,
    {
        lines.push(records[index].to_json());
        index = index + 1;
    }
    lines
}

} // verus!
