use vstd::prelude::*;

verus! {

/// The editable input fields, in the order in which they are shown and stored.
#[derive(Clone, Copy, Debug, PartialEq, Eq, Structural)]
pub enum FieldId {
    VinMin,
    VinMax,
    VoutMin,
    VoutMax,
    ILoadMax,
    FswKHz,
    RipplePct,
    VinRippleVpp,
    VoutRippleVpp,
    RdsHighmOhm,
    RdsLowmOhm,
    DcrmOhm,
    TrNs,
    TfNs,
    TloadMicrosecond,
    VinDroopVolt,
    Steps,
}

/// Every field, in display order.
pub open spec fn all_fields() -> Seq<FieldId> {
    seq![
        FieldId::VinMin,
        FieldId::VinMax,
        FieldId::VoutMin,
        FieldId::VoutMax,
        FieldId::ILoadMax,
        FieldId::FswKHz,
        FieldId::RipplePct,
        FieldId::VinRippleVpp,
        FieldId::VoutRippleVpp,
        FieldId::RdsHighmOhm,
        FieldId::RdsLowmOhm,
        FieldId::DcrmOhm,
        FieldId::TrNs,
        FieldId::TfNs,
        FieldId::TloadMicrosecond,
        FieldId::VinDroopVolt,
        FieldId::Steps,
    ]
}

/// The label shown next to each field.
pub open spec fn field_label(f: FieldId) -> Seq<char> {
    match f {
        FieldId::VinMin => "VIN min (V)"@,
        FieldId::VinMax => "VIN max (V)"@,
        FieldId::VoutMin => "VOUT min (V)"@,
        FieldId::VoutMax => "VOUT max (V)"@,
        FieldId::ILoadMax => "ILOAD max (A)"@,
        FieldId::FswKHz => "FSW (kHz)"@,
        FieldId::RipplePct => "Ripple ratio (%)"@,
        FieldId::VinRippleVpp => "VIN ripple (Vpp)"@,
        FieldId::VoutRippleVpp => "VOUT ripple (Vpp)"@,
        FieldId::RdsHighmOhm => "Rds high (mΩ)"@,
        FieldId::RdsLowmOhm => "Rds low (mΩ)"@,
        FieldId::DcrmOhm => "Inductor DCR (mΩ)"@,
        FieldId::TrNs => "FET Rise Time (ns)"@,
        FieldId::TfNs => "FET Fall Time (ns)"@,
        FieldId::TloadMicrosecond => "Load transient (µs)"@,
        FieldId::VinDroopVolt => "VIN droop (V)"@,
        FieldId::Steps => "Sweep steps (N)"@,
    }
}

/// The position of each field in [`all_fields`], which is also where its value is stored.
pub open spec fn field_index(f: FieldId) -> int {
    match f {
        FieldId::VinMin => 0,
        FieldId::VinMax => 1,
        FieldId::VoutMin => 2,
        FieldId::VoutMax => 3,
        FieldId::ILoadMax => 4,
        FieldId::FswKHz => 5,
        FieldId::RipplePct => 6,
        FieldId::VinRippleVpp => 7,
        FieldId::VoutRippleVpp => 8,
        FieldId::RdsHighmOhm => 9,
        FieldId::RdsLowmOhm => 10,
        FieldId::DcrmOhm => 11,
        FieldId::TrNs => 12,
        FieldId::TfNs => 13,
        FieldId::TloadMicrosecond => 14,
        FieldId::VinDroopVolt => 15,
        FieldId::Steps => 16,
    }
}

/// The number of input fields.
pub const FIELD_COUNT: usize = 17;

impl FieldId {
    /// All fields in display order.
    pub fn all() -> (r: &'static [FieldId])
        ensures
            r@ == all_fields(),
    {
        &[
            FieldId::VinMin,
            FieldId::VinMax,
            FieldId::VoutMin,
            FieldId::VoutMax,
            FieldId::ILoadMax,
            FieldId::FswKHz,
            FieldId::RipplePct,
            FieldId::VinRippleVpp,
            FieldId::VoutRippleVpp,
            FieldId::RdsHighmOhm,
            FieldId::RdsLowmOhm,
            FieldId::DcrmOhm,
            FieldId::TrNs,
            FieldId::TfNs,
            FieldId::TloadMicrosecond,
            FieldId::VinDroopVolt,
            FieldId::Steps,
        ]
    }

    /// The label shown next to this field.
    pub fn label(self) -> (r: &'static str)
        ensures
            r@ == field_label(self),
    {
        match self {
            FieldId::VinMin => "VIN min (V)",
            FieldId::VinMax => "VIN max (V)",
            FieldId::VoutMin => "VOUT min (V)",
            FieldId::VoutMax => "VOUT max (V)",
            FieldId::ILoadMax => "ILOAD max (A)",
            FieldId::FswKHz => "FSW (kHz)",
            FieldId::RipplePct => "Ripple ratio (%)",
            FieldId::VinRippleVpp => "VIN ripple (Vpp)",
            FieldId::VoutRippleVpp => "VOUT ripple (Vpp)",
            FieldId::RdsHighmOhm => "Rds high (mΩ)",
            FieldId::RdsLowmOhm => "Rds low (mΩ)",
            FieldId::DcrmOhm => "Inductor DCR (mΩ)",
            FieldId::TrNs => "FET Rise Time (ns)",
            FieldId::TfNs => "FET Fall Time (ns)",
            FieldId::TloadMicrosecond => "Load transient (µs)",
            FieldId::VinDroopVolt => "VIN droop (V)",
            FieldId::Steps => "Sweep steps (N)",
        }
    }
}

/// `FieldId::all` lists every field exactly once: it has `FIELD_COUNT` entries, the entry at
/// a field's index is that field, and the entry at each position has that position as index.
pub proof fn lemma_all_fields_lists_each_field_once(f: FieldId)
    ensures
        all_fields().len() == FIELD_COUNT,
        0 <= field_index(f) < FIELD_COUNT,
        all_fields()[field_index(f)] == f,
        forall|i: int| 0 <= i < FIELD_COUNT ==> field_index(#[trigger] all_fields()[i]) == i,
{
    assert forall|i: int| 0 <= i < FIELD_COUNT implies field_index(#[trigger] all_fields()[i]) == i by {
        if i < 9 {
        } else {
        }
    }
}

/// The label of the field at each position of the display order: the minimum and maximum
/// input voltage, the minimum and maximum output voltage, the load current, the switching
/// frequency, the ripple ratio, the input and output ripple, the two on-resistances, the
/// inductor resistance, the rise and fall times, the load transient, the input droop and
/// the number of sweep steps, each with its unit.
pub proof fn lemma_labels_in_display_order()
    ensures
        field_label(all_fields()[0]) == "VIN min (V)"@,
        field_label(all_fields()[1]) == "VIN max (V)"@,
        field_label(all_fields()[2]) == "VOUT min (V)"@,
        field_label(all_fields()[3]) == "VOUT max (V)"@,
        field_label(all_fields()[4]) == "ILOAD max (A)"@,
        field_label(all_fields()[5]) == "FSW (kHz)"@,
        field_label(all_fields()[6]) == "Ripple ratio (%)"@,
        field_label(all_fields()[7]) == "VIN ripple (Vpp)"@,
        field_label(all_fields()[8]) == "VOUT ripple (Vpp)"@,
        field_label(all_fields()[9]) == "Rds high (mΩ)"@,
        field_label(all_fields()[10]) == "Rds low (mΩ)"@,
        field_label(all_fields()[11]) == "Inductor DCR (mΩ)"@,
        field_label(all_fields()[12]) == "FET Rise Time (ns)"@,
        field_label(all_fields()[13]) == "FET Fall Time (ns)"@,
        field_label(all_fields()[14]) == "Load transient (µs)"@,
        field_label(all_fields()[15]) == "VIN droop (V)"@,
        field_label(all_fields()[16]) == "Sweep steps (N)"@,
{
}

} // verus!
