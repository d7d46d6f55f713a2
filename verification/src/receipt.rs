//! The service's answer to a submission: reading it and rendering it.

use crate::entry::entry_for;
use crate::failure::{Call, Failure};
use crate::json::{
    as_count, as_text, json_count, json_document, json_member, json_text, member, parse_document,
};
use crate::text::{decimal, decimal_string, lemma_decimal_one_line, one_line};
use serde_json::Value;
use vstd::prelude::*;
use vstd::string::*;

verus! {

/// The status with which the service confirms a new entry.
pub const CREATED: u16 = 201;

/// The entry that the service confirms to have stored.
#[derive(Clone, Debug, PartialEq, Eq)]
pub struct Receipt {
    pub date_at: String,
    pub customer_name: String,
    pub project_name: String,
    pub service_name: String,
    pub minutes: u64,
}

/// What a [`Receipt`] is, with its texts as sequences of characters.
pub ghost struct ReceiptView {
    pub date_at: Seq<char>,
    pub customer_name: Seq<char>,
    pub project_name: Seq<char>,
    pub service_name: Seq<char>,
    pub minutes: u64,
}

impl View for Receipt {
    type V = ReceiptView;

    open spec fn view(&self) -> ReceiptView {
        ReceiptView {
            date_at: self.date_at@,
            customer_name: self.customer_name@,
            project_name: self.project_name@,
            service_name: self.service_name@,
            minutes: self.minutes,
        }
    }
}

/// What an answer holds under each of the five names that a receipt is
/// made of: `None` where the member is missing or of another kind.
#[derive(Clone, Debug, PartialEq, Eq)]
pub struct Fields {
    pub date_at: Option<String>,
    pub customer_name: Option<String>,
    pub project_name: Option<String>,
    pub service_name: Option<String>,
    pub minutes: Option<u64>,
}

/// What [`Fields`] are, with their texts as sequences of characters.
pub ghost struct FieldsView {
    pub date_at: Option<Seq<char>>,
    pub customer_name: Option<Seq<char>>,
    pub project_name: Option<Seq<char>>,
    pub service_name: Option<Seq<char>>,
    pub minutes: Option<u64>,
}

/// An optional text as an optional sequence of characters.
pub open spec fn text_view(text: Option<String>) -> Option<Seq<char>> {
    match text {
        Some(s) => Some(s@),
        None => None,
    }
}

impl View for Fields {
    type V = FieldsView;

    open spec fn view(&self) -> FieldsView {
        FieldsView {
            date_at: text_view(self.date_at),
            customer_name: text_view(self.customer_name),
            project_name: text_view(self.project_name),
            service_name: text_view(self.service_name),
            minutes: self.minutes,
        }
    }
}

/// A read receipt, or the failure to read one, by its view.
pub open spec fn outcome_view(outcome: Result<Receipt, Failure>) -> Result<ReceiptView, Failure> {
    match outcome {
        Ok(receipt) => Ok(receipt@),
        Err(failure) => Err(failure),
    }
}

/// The receipt made of `fields`: all five must be there, else the answer
/// cannot be decoded.
pub open spec fn receipt_of(fields: FieldsView) -> Result<ReceiptView, Failure> {
    if fields.date_at is Some && fields.customer_name is Some && fields.project_name is Some
        && fields.service_name is Some && fields.minutes is Some {
        Ok(
            ReceiptView {
                date_at: fields.date_at->0,
                customer_name: fields.customer_name->0,
                project_name: fields.project_name->0,
                service_name: fields.service_name->0,
                minutes: fields.minutes->0,
            },
        )
    } else {
        Err(Failure::Decode(Call::CreateEntry))
    }
}

/// What `document` holds under the five names, inside its member
/// `time_entry`.
pub open spec fn fields_of(document: Value) -> FieldsView {
    let entry = json_member(document, "time_entry"@);
    FieldsView {
        date_at: json_text(json_member(entry, "date_at"@)),
        customer_name: json_text(json_member(entry, "customer_name"@)),
        project_name: json_text(json_member(entry, "project_name"@)),
        service_name: json_text(json_member(entry, "service_name"@)),
        minutes: json_count(json_member(entry, "minutes"@)),
    }
}

/// The receipt that the bytes of a confirming answer decode to.
pub open spec fn decoded(body: Seq<u8>) -> Result<ReceiptView, Failure> {
    match json_document(body) {
        Some(document) => receipt_of(fields_of(document)),
        None => Err(Failure::Decode(Call::CreateEntry)),
    }
}

/// What an answer with `status` and `body` means: a receipt where the
/// status is 201 and the body decodes, a refusal with the status where it
/// is any other.
pub open spec fn reply_of(status: u16, body: Seq<u8>) -> Result<ReceiptView, Failure> {
    if status == CREATED {
        decoded(body)
    } else {
        Err(Failure::SubmissionRejected(status))
    }
}

/// The line that says what was booked: customer, project and service, two
/// tabs, and the whole hours.
pub open spec fn detail_of(receipt: ReceiptView) -> Seq<char> {
    receipt.customer_name + " / "@ + receipt.project_name + " / "@ + receipt.service_name
        + "\t\t"@ + decimal((receipt.minutes / 60) as nat) + "h"@
}

/// The two lines that confirm a stored entry: the date, then what was
/// booked.
pub open spec fn summary_of(receipt: ReceiptView) -> Seq<char> {
    receipt.date_at + "\n"@ + detail_of(receipt)
}

/// The summary of a receipt whose texts stay on one line each is exactly
/// two lines: the date, one line feed, and the line that says what was
/// booked.
pub proof fn lemma_summary_two_lines(receipt: ReceiptView)
    requires
        one_line(receipt.date_at),
        one_line(receipt.customer_name),
        one_line(receipt.project_name),
        one_line(receipt.service_name),
    ensures
        summary_of(receipt) == receipt.date_at + seq!['\n'] + detail_of(receipt),
        one_line(detail_of(receipt)),
{
    reveal_strlit("\n");
    reveal_strlit(" / ");
    reveal_strlit("\t\t");
    reveal_strlit("h");
    lemma_decimal_one_line((receipt.minutes / 60) as nat);
    assert("\n"@ =~= seq!['\n']);
    assert(one_line(" / "@));
    assert(one_line("\t\t"@));
    assert(one_line("h"@));
}

/// A receipt that confirms the minutes of a submitted entry shows the hours
/// that were entered: sixty minutes for each hour, divided by sixty again.
pub proof fn lemma_hours_come_back(
    hours: u32,
    project_id: u32,
    service_id: u32,
    note: Seq<char>,
    receipt: ReceiptView,
)
    requires
        receipt.minutes == entry_for(hours, project_id, service_id, note).minutes,
    ensures
        receipt.minutes / 60 == hours,
        detail_of(receipt) == receipt.customer_name + " / "@ + receipt.project_name + " / "@
            + receipt.service_name + "\t\t"@ + decimal(hours as nat) + "h"@,
{
}

/// The text of a member that is a string, as an owned string.
fn owned_text(value: &Value) -> (found: Option<String>)
    ensures
        text_view(found) == json_text(*value),
{
    match as_text(value) {
        Some(s) => Some(s.to_owned()),
        None => None,
    }
}

impl Receipt {
    /// Makes a receipt of the five fields; fails with a decode failure of
    /// the submission where one of them is missing.
    pub fn from_fields(fields: Fields) -> (outcome: Result<Receipt, Failure>)
        ensures
            outcome_view(outcome) == receipt_of(fields@),
    {
        let Fields { date_at, customer_name, project_name, service_name, minutes } = fields;
        match (date_at, customer_name, project_name, service_name, minutes) {
            (
                Some(date_at),
                Some(customer_name),
                Some(project_name),
                Some(service_name),
                Some(minutes),
            ) => Ok(Receipt { date_at, customer_name, project_name, service_name, minutes }),
            _ => Err(Failure::Decode(Call::CreateEntry)),
        }
    }

    /// The whole hours that the receipt confirms: its minutes over sixty,
    /// rounded down.
    pub fn hours(&self) -> (hours: u64)
        ensures
            hours == self.minutes / 60,
    {
        self.minutes / 60
    }

    /// Renders the receipt as the two lines shown to the user, without a
    /// line end after the second.
    pub fn summary(&self) -> (lines: String)
        ensures
            lines@ == summary_of(self@),
    {
        let mut lines = self.date_at.clone();
        lines.append("\n");
        lines.append(self.customer_name.as_str());
        lines.append(" / ");
        lines.append(self.project_name.as_str());
        lines.append(" / ");
        lines.append(self.service_name.as_str());
        lines.append("\t\t");
        let numeral = decimal_string(self.hours());
        lines.append(numeral.as_str());
        lines.append("h");
        assert(lines@ =~= summary_of(self@));
        lines
    }
}

/// Looks up the five fields of a receipt in a parsed answer.
pub fn read_fields(document: &Value) -> (fields: Fields)
    ensures
        fields@ == fields_of(*document),
{
    let entry = member(document, "time_entry");
    Fields {
        date_at: owned_text(member(entry, "date_at")),
        customer_name: owned_text(member(entry, "customer_name")),
        project_name: owned_text(member(entry, "project_name")),
        service_name: owned_text(member(entry, "service_name")),
        minutes: as_count(member(entry, "minutes")),
    }
}

/// Decodes the body of a confirming answer.
///
/// Fails with a decode failure of the submission where the body is no JSON
/// document or lacks one of the five fields.
pub fn decode_receipt(body: &[u8]) -> (outcome: Result<Receipt, Failure>)
    ensures
        outcome_view(outcome) == decoded(body@),
{
    match parse_document(body) {
        Ok(document) => Receipt::from_fields(read_fields(&document)),
        Err(_) => Err(Failure::Decode(Call::CreateEntry)),
    }
}

/// Reads the service's answer to a submission.
///
/// With status 201 the body is decoded; any other status is a refusal that
/// carries the status, whatever the body holds.
pub fn read_reply(status: u16, body: &[u8]) -> (outcome: Result<Receipt, Failure>)
    ensures
        outcome_view(outcome) == reply_of(status, body@),
{
    if status == CREATED {
        decode_receipt(body)
    } else {
        Err(Failure::SubmissionRejected(status))
    }
}

} // verus!
