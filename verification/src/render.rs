//! Human-readable text for diagnostics.
//!
//! The texts are for people reading logs; nothing should decide on them.

use vstd::prelude::*;
use vstd::string::*;
use crate::code::{HyperCallCode, InvalidHyperCallCode};
use crate::hex::{
    append_hex_literal, hex_digit, hex_digits, hex_literal, lemma_hex_digit_value,
    lemma_hex_literal_injective,
};

verus! {

/// Whether `part` occurs in `text` as a contiguous run of characters.
pub open spec fn occurs_in(part: Seq<char>, text: Seq<char>) -> bool {
    exists|at: int|
        0 <= at && at + part.len() <= text.len() && #[trigger] text.subrange(
            at,
            at + part.len(),
        ) == part
}

impl HyperCallCode {
    /// The operation's name.
    pub open spec fn spec_name(self) -> Seq<char> {
        match self {
            HyperCallCode::HypervisorDisable => "HypervisorDisable"@,
            HyperCallCode::HyperVisorPrepareDisable => "HyperVisorPrepareDisable"@,
            HyperCallCode::HyperVisorDebug => "HyperVisorDebug"@,
            HyperCallCode::HIVCPublishChannel => "HIVCPublishChannel"@,
            HyperCallCode::HIVCSubscribChannel => "HIVCSubscribChannel"@,
            HyperCallCode::HIVCUnPublishChannel => "HIVCUnPublishChannel"@,
            HyperCallCode::HIVCUnSubscribChannel => "HIVCUnSubscribChannel"@,
        }
    }

    /// The operation's diagnostic text: its name and its number as a
    /// hexadecimal literal, in round brackets, such as `(HyperVisorDebug 0x2)`.
    pub open spec fn spec_render(self) -> Seq<char> {
        seq!['('] + self.spec_name() + seq![' '] + hex_literal(self.spec_value() as nat) + seq![')']
    }

    /// The operation's name.
    pub fn name(self) -> (name: &'static str)
        ensures
            name@ == self.spec_name(),
    {
        match self {
            HyperCallCode::HypervisorDisable => "HypervisorDisable",
            HyperCallCode::HyperVisorPrepareDisable => "HyperVisorPrepareDisable",
            HyperCallCode::HyperVisorDebug => "HyperVisorDebug",
            HyperCallCode::HIVCPublishChannel => "HIVCPublishChannel",
            HyperCallCode::HIVCSubscribChannel => "HIVCSubscribChannel",
            HyperCallCode::HIVCUnPublishChannel => "HIVCUnPublishChannel",
            HyperCallCode::HIVCUnSubscribChannel => "HIVCUnSubscribChannel",
        }
    }

    /// The operation's diagnostic text, such as `(HyperVisorDebug 0x2)`.
    ///
    /// The text depends on the operation alone, so rendering one operation
    /// twice gives the same text.
    pub fn render(self) -> (text: String)
        ensures
            text@ == self.spec_render(),
    {
        proof {
            reveal_strlit("(");
            reveal_strlit(" ");
            reveal_strlit(")");
            assert("("@ =~= seq!['(']);
            assert(" "@ =~= seq![' ']);
            assert(")"@ =~= seq![')']);
        }
        let mut text = String::from_str("(");
        text.append(self.name());
        text.append(" ");
        append_hex_literal(&mut text, self.value());
        text.append(")");
        text
    }
}

impl InvalidHyperCallCode {
    /// The marker's message: `invalid hypercall code: `, then the rejected
    /// number as a hexadecimal literal.
    pub open spec fn spec_message(self) -> Seq<char> {
        "invalid hypercall code: "@ + hex_literal(self.0 as nat)
    }

    /// The marker's message, such as `invalid hypercall code: 0x7`.
    pub fn message(&self) -> (text: String)
        ensures
            text@ == self.spec_message(),
    {
        let mut text = String::from_str("invalid hypercall code: ");
        append_hex_literal(&mut text, self.0);
        text
    }
}

/// An operation's diagnostic text holds its number as a hexadecimal literal.
pub proof fn lemma_render_embeds_value(code: HyperCallCode)
    ensures
        occurs_in(hex_literal(code.spec_value() as nat), code.spec_render()),
{
    let part = hex_literal(code.spec_value() as nat);
    let text = code.spec_render();
    let at: int = text.len() - part.len() - 1;
    assert(text.subrange(at, at + part.len()) =~= part);
}

/// A marker's message ends in the rejected number as a hexadecimal literal.
pub proof fn lemma_message_embeds_value(marker: InvalidHyperCallCode)
    ensures
        occurs_in(hex_literal(marker.0 as nat), marker.spec_message()),
{
    let part = hex_literal(marker.0 as nat);
    let text = marker.spec_message();
    let at: int = text.len() - part.len();
    assert(text.subrange(at, at + part.len()) =~= part);
}

/// Two operations have the same diagnostic text exactly when they are the
/// same operation: the text depends on nothing else, and it tells the
/// operations apart.
pub proof fn lemma_render_distinguishes(a: HyperCallCode, b: HyperCallCode)
    ensures
        a.spec_render() == b.spec_render() <==> a == b,
{
    if a.spec_render() == b.spec_render() {
        let text = a.spec_render();
        let va = a.spec_value() as nat;
        let vb = b.spec_value() as nat;
        assert(hex_digits(va) =~= seq![hex_digit(va)]);
        assert(hex_digits(vb) =~= seq![hex_digit(vb)]);
        assert(a.spec_render()[text.len() - 2] == hex_digit(va));
        assert(b.spec_render()[text.len() - 2] == hex_digit(vb));
        lemma_hex_digit_value(va);
        lemma_hex_digit_value(vb);
    }
}

/// Two markers have the same message exactly when they carry the same
/// number: the message loses nothing of the rejected input.
pub proof fn lemma_message_distinguishes(a: InvalidHyperCallCode, b: InvalidHyperCallCode)
    ensures
        a.spec_message() == b.spec_message() <==> a == b,
{
    if a.spec_message() == b.spec_message() {
        let lead = "invalid hypercall code: "@;
        let la = hex_literal(a.0 as nat);
        let lb = hex_literal(b.0 as nat);
        assert((lead + la).subrange(lead.len() as int, (lead + la).len() as int) =~= la);
        assert((lead + lb).subrange(lead.len() as int, (lead + lb).len() as int) =~= lb);
        lemma_hex_literal_injective(a.0 as nat, b.0 as nat);
    }
}

} // verus!
