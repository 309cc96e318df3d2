use bedrock_vmx::exits::pebs::{
    arm_precise_exit, build_ds_management_area, disarm_precise_exit, ds_management_area_bytes,
    get_pebs_margin, host_family_model, is_pebs_induced, ArmResult, PebsAction, PebsHostMsrs,
    PebsState, FIXED_CTR_CTRL_FC0_OS_USR, PEBS_BUFFER_OFFSET, PEBS_BUFFER_SIZE, PEBS_MIN_DELTA,
    PMC_COUNTER_MASK,
};
use bedrock_vmx::exits::qualifications::EptViolationQualification;

fn margin() -> u64 {
    get_pebs_margin(0x0005_0657)
}

fn make_pebs_state() -> PebsState {
    PebsState {
        ds_management_gpa: 0x1000,
        pebs_buffer_gpa: 0x1000,
        ds_area_va: 0xffff_8000_0000_1000,
        armed_action: None,
        armed_target_tsc: 0,
        armed_inst_count: 0,
        armed_tsc_offset: 0,
        iters_since_arm: 0,
        counter_reload: 0,
        fixed_ctr_ctrl: FIXED_CTR_CTRL_FC0_OS_USR,
        pebs_enable: 1u64 << 32,
        pebs_data_cfg: 0,
        host_msrs: PebsHostMsrs::default(),
        logged_first_arm: false,
    }
}

#[test]
fn arm_already_past_returns_already_past_and_does_not_arm() {
    let mut p = make_pebs_state();
    let r = arm_precise_exit(
        &mut p,
        100,
        50,
        PebsAction::InjectInterrupt(0x20),
        0,
        0,
        margin(),
    );
    assert_eq!(r, ArmResult::AlreadyPast);
    assert!(p.armed_action.is_none());
}

#[test]
fn arm_below_min_delta_returns_below_min_delta() {
    let mut p = make_pebs_state();
    let target = 100 + PEBS_MIN_DELTA + margin() - 1;
    let r = arm_precise_exit(
        &mut p,
        100,
        target,
        PebsAction::InjectInterrupt(0x20),
        0,
        0,
        margin(),
    );
    assert_eq!(r, ArmResult::BelowMinDelta);
    assert!(p.armed_action.is_none());
}

#[test]
fn arm_minimum_delta_writes_correct_counter_reload() {
    let mut p = make_pebs_state();
    let delta = PEBS_MIN_DELTA + margin();
    let r = arm_precise_exit(
        &mut p,
        100,
        100 + delta,
        PebsAction::InjectInterrupt(0x20),
        0,
        0,
        margin(),
    );
    assert_eq!(r, ArmResult::Armed);
    let encoded = delta - margin();
    assert_eq!(p.counter_reload, encoded.wrapping_neg() & PMC_COUNTER_MASK);
    assert_eq!(p.armed_target_tsc, 100 + delta - margin());
    assert!(matches!(
        p.armed_action,
        Some(PebsAction::InjectInterrupt(0x20))
    ));
}

#[test]
fn arm_large_delta_writes_correct_counter_reload() {
    let mut p = make_pebs_state();
    let delta: u64 = 1_000_000;
    let r = arm_precise_exit(
        &mut p,
        0,
        delta,
        PebsAction::InjectInterrupt(0x20),
        0,
        0,
        margin(),
    );
    assert_eq!(r, ArmResult::Armed);
    let encoded = delta - margin();
    let expected = encoded.wrapping_neg() & PMC_COUNTER_MASK;
    assert_eq!(p.counter_reload, expected);
    let wrapped = p.counter_reload.wrapping_add(encoded) & PMC_COUNTER_MASK;
    assert_eq!(wrapped, 0);
}

#[test]
fn arm_overwrites_previous_action() {
    let mut p = make_pebs_state();
    let _ = arm_precise_exit(
        &mut p,
        0,
        1000,
        PebsAction::InjectInterrupt(0x20),
        0,
        0,
        margin(),
    );
    let _ = arm_precise_exit(
        &mut p,
        0,
        1000,
        PebsAction::InjectInterrupt(0x30),
        0,
        0,
        margin(),
    );
    assert!(matches!(
        p.armed_action,
        Some(PebsAction::InjectInterrupt(0x30))
    ));
}

#[test]
fn disarm_clears_armed_action_idempotent() {
    let mut p = make_pebs_state();
    let _ = arm_precise_exit(
        &mut p,
        0,
        1000,
        PebsAction::InjectInterrupt(0x20),
        0,
        0,
        margin(),
    );
    disarm_precise_exit(&mut p);
    assert!(p.armed_action.is_none());
    disarm_precise_exit(&mut p);
    assert!(p.armed_action.is_none());
}

fn ept_qual(write: bool, asynchronous: bool) -> EptViolationQualification {
    EptViolationQualification {
        read: false,
        write,
        execute: false,
        readable: true,
        writable: false,
        executable: true,
        guest_linear_valid: false,
        asynchronous,
    }
}

#[test]
fn is_pebs_induced_requires_async_and_write() {
    assert!(is_pebs_induced(&ept_qual(true, true)));
    assert!(!is_pebs_induced(&ept_qual(false, true)));
    assert!(!is_pebs_induced(&ept_qual(true, false)));
    assert!(!is_pebs_induced(&ept_qual(false, false)));
}

#[test]
fn margin_depends_on_the_model() {
    // Family 6, model 0x8F.
    assert_eq!(host_family_model(0x0008_06F8), (6, 0x8F));
    assert_eq!(get_pebs_margin(0x0008_06F8), 3);
    assert_eq!(host_family_model(0x0005_0657), (6, 0x55));
    assert_eq!(get_pebs_margin(0x0005_0657), 8);
    // Family 0xF takes the extended family along.
    assert_eq!(host_family_model(0x00A2_0F12), (0x19, 0x21));
}

#[test]
fn management_area_points_into_its_page() {
    let page = 0xffff_8880_0000_5000u64;
    let area = build_ds_management_area(page);
    let bytes = ds_management_area_bytes(&area);
    let word = |i: usize| u64::from_le_bytes(bytes[i * 8..i * 8 + 8].try_into().unwrap());
    assert_eq!(word(4), page + PEBS_BUFFER_OFFSET);
    assert_eq!(word(5), page + PEBS_BUFFER_OFFSET);
    assert_eq!(word(6), page + PEBS_BUFFER_OFFSET + PEBS_BUFFER_SIZE);
}
