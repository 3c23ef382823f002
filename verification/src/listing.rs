//! The properties of a headset as text, one line for each that is known.
use vstd::prelude::*;
use vstd::string::*;
use crate::properties::{
    property_table, rows, DeviceProperties, PropertyDescriptorWrapper, PropertyModel, PropertyType,
    PropertyValue, ValueModel,
};
use crate::text::{join_lines, joined, pad_right, padded, text_views};

verus! {

/// The width of the label column in the usual listing.
pub const LABEL_WIDTH: usize = 25;

impl ValueModel {
    /// The value as it is listed; nothing where it is not known.
    pub open spec fn text(self) -> Option<Seq<char>> {
        match self {
            ValueModel::Int(Some(n), _) => Some(crate::text::decimal(n as nat)),
            ValueModel::Bool(Some(b)) => Some(crate::text::bool_text(b)),
            ValueModel::Text(Some(s)) => Some(s),
            _ => None,
        }
    }
}

/// What stands behind a value that this headset does not let be set.
pub open spec fn marker_text(property_type: PropertyType) -> Seq<char> {
    if property_type == PropertyType::ReadOnly { " (read-only)"@ } else { ""@ }
}

/// The line of a row with the value `text`: the label in its column, a space,
/// the value, its unit and, where `marked`, the marker.
pub open spec fn row_line(row: PropertyModel, text: Seq<char>, padding: nat, marked: bool) -> Seq<
    char,
> {
    let plain = padded(row.prefix, padding) + " "@ + text + row.suffix;
    if marked { plain + marker_text(row.property_type) } else { plain }
}

/// The lines of the rows whose values are known, in the order of the rows.
pub open spec fn known_lines(table: Seq<PropertyModel>, padding: nat, marked: bool) -> Seq<Seq<char>>
    decreases table.len(),
{
    if table.len() == 0 {
        Seq::empty()
    } else {
        let before = known_lines(table.drop_last(), padding, marked);
        match table.last().value.text() {
            Some(text) => before.push(row_line(table.last(), text, padding, marked)),
            None => before,
        }
    }
}

/// The listing of the properties.
pub open spec fn listing(p: DeviceProperties, padding: nat, marked: bool) -> Seq<char> {
    joined(known_lines(property_table(p), padding, marked), "\n"@)
}

impl PropertyDescriptorWrapper {
    pub fn prefix(&self) -> (s: &'static str)
        ensures
            s@ == self@.prefix,
    {
        match self {
            PropertyDescriptorWrapper::Int(d, _) => d.prefix,
            PropertyDescriptorWrapper::Bool(d) => d.prefix,
            PropertyDescriptorWrapper::String(d) => d.prefix,
        }
    }

    pub fn suffix(&self) -> (s: &'static str)
        ensures
            s@ == self@.suffix,
    {
        match self {
            PropertyDescriptorWrapper::Int(d, _) => d.suffix,
            PropertyDescriptorWrapper::Bool(d) => d.suffix,
            PropertyDescriptorWrapper::String(d) => d.suffix,
        }
    }

    pub fn property_type(&self) -> (t: PropertyType)
        ensures
            t == self@.property_type,
    {
        match self {
            PropertyDescriptorWrapper::Int(d, _) => d.property_type,
            PropertyDescriptorWrapper::Bool(d) => d.property_type,
            PropertyDescriptorWrapper::String(d) => d.property_type,
        }
    }

    /// The value as it is listed; nothing where it is not known.
    pub fn value_string(&self) -> (s: Option<String>)
        ensures
            s is Some == self@.value.text() is Some,
            s matches Some(text) ==> text@ == self@.value.text()->0,
    {
        match self {
            PropertyDescriptorWrapper::Int(d, _) => match &d.data {
                Some(value) => Some(value.to_text()),
                None => None,
            },
            PropertyDescriptorWrapper::Bool(d) => match &d.data {
                Some(value) => Some(value.to_text()),
                None => None,
            },
            PropertyDescriptorWrapper::String(d) => match &d.data {
                Some(value) => Some(value.to_text()),
                None => None,
            },
        }
    }

    /// The line of this property; nothing where its value is not known.
    fn line(&self, padding: usize, marked: bool) -> (line: Option<String>)
        ensures
            line is Some == self@.value.text() is Some,
            line matches Some(s) ==> s@ == row_line(
                self@,
                self@.value.text()->0,
                padding as nat,
                marked,
            ),
    {
        match self.value_string() {
            Some(value) => {
                let mut line = pad_right(self.prefix(), padding);
                line.append(" ");
                line.append(value.as_str());
                line.append(self.suffix());
                if marked {
                    let marker = if self.property_type() == PropertyType::ReadOnly {
                        " (read-only)"
                    } else {
                        ""
                    };
                    line.append(marker);
                }
                Some(line)
            },
            None => None,
        }
    }
}

fn collect_lines(properties: &Vec<PropertyDescriptorWrapper>, padding: usize, marked: bool) -> (lines:
    Vec<String>)
    ensures
        text_views(lines@) == known_lines(rows(properties@), padding as nat, marked),
{
    let ghost table = rows(properties@);
    let mut lines: Vec<String> = Vec::new();
    let mut done: usize = 0;
    proof {
        assert(text_views(lines@) =~= known_lines(table.take(0), padding as nat, marked));
    }
    while done < properties.len()
        invariant
            done <= properties.len(),
            table == rows(properties@),
            text_views(lines@) == known_lines(table.take(done as int), padding as nat, marked),
        decreases properties.len() - done,
    {
        let ghost before = lines@;
        proof {
            assert(table.take(done + 1).drop_last() =~= table.take(done as int));
            assert(table.take(done + 1).last() == properties@[done as int]@);
        }
        match properties[done].line(padding, marked) {
            Some(line) => {
                lines.push(line);
                proof {
                    assert(text_views(lines@) =~= text_views(before).push(line@));
                }
            },
            None => {},
        }
        done = done + 1;
    }
    proof {
        assert(table.take(properties@.len() as int) =~= table);
    }
    lines
}

impl DeviceProperties {
    /// The known properties, one on each line, with labels padded to `padding` characters.
    pub fn to_string_with_padding(&self, padding: usize) -> (s: String)
        ensures
            s@ == listing(*self, padding as nat, false),
    {
        let properties = self.get_properties();
        join_lines(&collect_lines(&properties, padding, false), "\n")
    }

    /// As `to_string_with_padding`, with a marker behind what this headset does not let be set.
    pub fn to_string_with_readonly_info(&self, padding: usize) -> (s: String)
        ensures
            s@ == listing(*self, padding as nat, true),
    {
        let properties = self.get_properties();
        join_lines(&collect_lines(&properties, padding, true), "\n")
    }

    /// The usual listing.
    pub fn to_string(&self) -> (s: String)
        ensures
            s@ == listing(*self, 25, true),
    {
        self.to_string_with_readonly_info(LABEL_WIDTH)
    }
}

} // verus!
