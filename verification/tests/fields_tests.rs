use mcp19061_calc::fields::{FieldId, FIELD_COUNT};

#[test]
fn all_lists_fields_in_display_order() {
    let all = FieldId::all();
    assert_eq!(all.len(), FIELD_COUNT);
    assert_eq!(all.len(), 17);
    assert_eq!(all[0], FieldId::VinMin);
    assert_eq!(all[1], FieldId::VinMax);
    assert_eq!(all[4], FieldId::ILoadMax);
    assert_eq!(all[8], FieldId::VoutRippleVpp);
    assert_eq!(all[16], FieldId::Steps);
}

#[test]
fn all_lists_each_field_once() {
    let all = FieldId::all();
    for i in 0..all.len() {
        for j in 0..all.len() {
            if i != j {
                assert_ne!(all[i], all[j]);
            }
        }
    }
}

#[test]
fn labels_match_fields() {
    assert_eq!(FieldId::VinMin.label(), "VIN min (V)");
    assert_eq!(FieldId::FswKHz.label(), "FSW (kHz)");
    assert_eq!(FieldId::RipplePct.label(), "Ripple ratio (%)");
    assert_eq!(FieldId::RdsHighmOhm.label(), "Rds high (mΩ)");
    assert_eq!(FieldId::DcrmOhm.label(), "Inductor DCR (mΩ)");
    assert_eq!(FieldId::TloadMicrosecond.label(), "Load transient (µs)");
    assert_eq!(FieldId::Steps.label(), "Sweep steps (N)");
}
