use fgcore::cbox::CBox;
use fgcore::framedata::{
    bdash_table, bwalk_table, dead_data, fdash_table, fwalk_table, idle_data, idle_table,
    mnormal_table, move_data, move_length, mspecial_table, nnormal_table, nspecial_table,
    FrameData, MoveData,
};

fn assert_defined_below_total(table: &Vec<MoveData>) {
    let total = move_length(table);
    for frame in 0..total {
        assert!(move_data(frame, table).is_some());
    }
    for past in 0..10u8 {
        assert!(move_data(total + past, table).is_none());
    }
}

#[test]
fn lookup_defined_exactly_below_total() {
    assert_defined_below_total(&idle_table());
    assert_defined_below_total(&fwalk_table());
    assert_defined_below_total(&bwalk_table());
    assert_defined_below_total(&nnormal_table());
    assert_defined_below_total(&mnormal_table());
    assert_defined_below_total(&nspecial_table());
    assert_defined_below_total(&mspecial_table());
    assert_defined_below_total(&fdash_table());
    assert_defined_below_total(&bdash_table());
}

#[test]
fn table_totals() {
    assert_eq!(move_length(&idle_table()), 24);
    assert_eq!(move_length(&fwalk_table()), 24);
    assert_eq!(move_length(&bwalk_table()), 24);
    assert_eq!(move_length(&nnormal_table()), 23);
    assert_eq!(move_length(&mnormal_table()), 22);
    assert_eq!(move_length(&nspecial_table()), 42);
    assert_eq!(move_length(&mspecial_table()), 55);
    assert_eq!(move_length(&fdash_table()), 16);
    assert_eq!(move_length(&bdash_table()), 22);
}

#[test]
fn idle_lookup_walks_durations() {
    let t = idle_table();
    assert_eq!(move_data(0, &t).unwrap().animation_frame, "idle_0");
    assert_eq!(move_data(5, &t).unwrap().animation_frame, "idle_0");
    assert_eq!(move_data(6, &t).unwrap().animation_frame, "idle_1");
    assert_eq!(move_data(8, &t).unwrap().animation_frame, "idle_1");
    assert_eq!(move_data(9, &t).unwrap().animation_frame, "idle_2");
    assert_eq!(move_data(23, &t).unwrap().animation_frame, "idle_4");
    assert!(move_data(24, &t).is_none());
}

#[test]
fn idle_data_matches_table() {
    assert_eq!(idle_data(3).unwrap().animation_frame, "idle_0");
    assert_eq!(idle_data(3).unwrap().duration, 6);
    assert!(idle_data(24).is_none());
}

#[test]
fn nnormal_active_window() {
    let t = nnormal_table();
    let startup = move_data(4, &t).unwrap();
    assert_eq!(startup.data.hitbox, None);
    assert_eq!(startup.data.meter, 0);

    let first_active = move_data(5, &t).unwrap();
    assert_eq!(first_active.data.meter, 100);
    assert_eq!(first_active.data.hitbox, Some(CBox { x: 299 }));
    assert_eq!(first_active.data.hurtbox.1, Some(CBox { x: 324 }));

    let second_active = move_data(6, &t).unwrap();
    assert_eq!(second_active.data.meter, 0);
    assert_eq!(second_active.data.hitbox, Some(CBox { x: 299 }));

    let recovery = move_data(7, &t).unwrap();
    assert_eq!(recovery.data.hitbox, None);
    assert_eq!(recovery.data.hurtbox.1, Some(CBox { x: 324 }));
}

#[test]
fn mnormal_active_window() {
    let t = mnormal_table();
    let first_active = move_data(4, &t).unwrap();
    assert_eq!(first_active.data.meter, 90);
    assert_eq!(first_active.data.hitbox, Some(CBox { x: 260 }));
    let late = move_data(18, &t).unwrap();
    assert_eq!(late.data.hurtbox.1, Some(CBox { x: 222 }));
}

#[test]
fn mspecial_drops_hurtboxes_early() {
    let t = mspecial_table();
    let dash_through = move_data(0, &t).unwrap();
    assert_eq!(dash_through.data.hurtbox, (None, None));
    assert_eq!(dash_through.data.speed, 8);
    let active = move_data(2, &t).unwrap();
    assert_eq!(active.data.hitbox, Some(CBox { x: 190 }));
    let settled = move_data(12, &t).unwrap();
    assert_eq!(settled.data.hurtbox.0, Some(CBox { x: 158 }));
}

#[test]
fn fdash_speeds_taper() {
    let t = fdash_table();
    assert_eq!(move_data(0, &t).unwrap().data.speed, 13);
    assert_eq!(move_data(3, &t).unwrap().data.speed, 18);
    assert_eq!(move_data(3, &t).unwrap().data.meter, 20);
    assert_eq!(move_data(15, &t).unwrap().data.speed, 0);
}

#[test]
fn bdash_moves_backward() {
    let t = bdash_table();
    assert_eq!(move_data(0, &t).unwrap().data.speed, -26);
    assert_eq!(move_data(3, &t).unwrap().data.speed, -12);
    assert_eq!(move_data(21, &t).unwrap().data.speed, 0);
}

#[test]
fn dead_entry() {
    let d = dead_data();
    assert_eq!(d.animation_frame, "dead_0");
    assert_eq!(d.duration, 1);
    assert_eq!(d.data.speed, 0);
}

#[test]
fn frame_snapshots() {
    assert_eq!(FrameData::fwalk().speed, 6);
    assert_eq!(FrameData::fwalk().meter, 3);
    assert_eq!(FrameData::bwalk().speed, -5);
    assert_eq!(FrameData::bwalk().meter, 0);
    assert_eq!(FrameData::default().collision, CBox { x: 125 });
    assert_eq!(FrameData::default().hurtbox.0, Some(CBox { x: 158 }));
    assert_eq!(FrameData::default().hurtbox.1, None);
    assert_eq!(FrameData::default().hitbox, None);
}
