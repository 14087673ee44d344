use triton_constraints::table_column::CASCADE_BASE_WIDTH;
use triton_constraints::table_column::CASCADE_EXT_WIDTH;
use triton_constraints::table_column::CascadeBaseTableColumn;
use triton_constraints::table_column::CascadeExtTableColumn;
use triton_constraints::table_column::DEGREE_LOWERING_TABLE_START;
use triton_constraints::table_column::DegreeLoweringBaseTableColumn;
use triton_constraints::table_column::EXT_DEGREE_LOWERING_TABLE_START;
use triton_constraints::table_column::DegreeLoweringExtTableColumn;
use triton_constraints::table_column::HASH_BASE_WIDTH;
use triton_constraints::table_column::HASH_EXT_WIDTH;
use triton_constraints::table_column::HashBaseTableColumn;
use triton_constraints::table_column::HashExtTableColumn;
use triton_constraints::table_column::JUMP_STACK_BASE_WIDTH;
use triton_constraints::table_column::JUMP_STACK_EXT_WIDTH;
use triton_constraints::table_column::JumpStackBaseTableColumn;
use triton_constraints::table_column::JumpStackExtTableColumn;
use triton_constraints::table_column::LOOKUP_BASE_WIDTH;
use triton_constraints::table_column::LOOKUP_EXT_WIDTH;
use triton_constraints::table_column::LookupBaseTableColumn;
use triton_constraints::table_column::LookupExtTableColumn;
use triton_constraints::table_column::MasterBaseTableColumn;
use triton_constraints::table_column::MasterExtTableColumn;
use triton_constraints::table_column::OP_STACK_BASE_WIDTH;
use triton_constraints::table_column::OP_STACK_EXT_WIDTH;
use triton_constraints::table_column::OpStackBaseTableColumn;
use triton_constraints::table_column::OpStackExtTableColumn;
use triton_constraints::table_column::PROCESSOR_BASE_WIDTH;
use triton_constraints::table_column::PROCESSOR_EXT_WIDTH;
use triton_constraints::table_column::PROGRAM_BASE_WIDTH;
use triton_constraints::table_column::PROGRAM_EXT_WIDTH;
use triton_constraints::table_column::ProcessorBaseTableColumn;
use triton_constraints::table_column::ProcessorExtTableColumn;
use triton_constraints::table_column::ProgramBaseTableColumn;
use triton_constraints::table_column::ProgramExtTableColumn;
use triton_constraints::table_column::RAM_BASE_WIDTH;
use triton_constraints::table_column::RAM_EXT_WIDTH;
use triton_constraints::table_column::RamBaseTableColumn;
use triton_constraints::table_column::RamExtTableColumn;
use triton_constraints::table_column::U32BaseTableColumn;
use triton_constraints::table_column::U32ExtTableColumn;
use triton_constraints::table_column::U32_BASE_WIDTH;
use triton_constraints::table_column::U32_EXT_WIDTH;

/// The number of degree-lowering columns that the contiguity tests lay out.
const NUM_DEGREE_LOWERING_COLUMNS: u16 = 200;

#[test]
fn column_max_bound_matches_table_width() {
    assert_eq!(
        PROGRAM_BASE_WIDTH,
        ProgramBaseTableColumn::columns()
            .last()
            .unwrap()
            .base_table_index()
            + 1,
        "ProgramTable's BASE_WIDTH is 1 + its max column index",
    );
    assert_eq!(
        PROCESSOR_BASE_WIDTH,
        ProcessorBaseTableColumn::columns()
            .last()
            .unwrap()
            .base_table_index()
            + 1,
        "ProcessorTable's BASE_WIDTH is 1 + its max column index",
    );
    assert_eq!(
        OP_STACK_BASE_WIDTH,
        OpStackBaseTableColumn::columns()
            .last()
            .unwrap()
            .base_table_index()
            + 1,
        "OpStackTable's BASE_WIDTH is 1 + its max column index",
    );
    assert_eq!(
        RAM_BASE_WIDTH,
        RamBaseTableColumn::columns()
            .last()
            .unwrap()
            .base_table_index()
            + 1,
        "RamTable's BASE_WIDTH is 1 + its max column index",
    );
    assert_eq!(
        JUMP_STACK_BASE_WIDTH,
        JumpStackBaseTableColumn::columns()
            .last()
            .unwrap()
            .base_table_index()
            + 1,
        "JumpStackTable's BASE_WIDTH is 1 + its max column index",
    );
    assert_eq!(
        HASH_BASE_WIDTH,
        HashBaseTableColumn::columns()
            .last()
            .unwrap()
            .base_table_index()
            + 1,
        "HashTable's BASE_WIDTH is 1 + its max column index",
    );
    assert_eq!(
        CASCADE_BASE_WIDTH,
        CascadeBaseTableColumn::columns()
            .last()
            .unwrap()
            .base_table_index()
            + 1,
        "CascadeTable's BASE_WIDTH is 1 + its max column index",
    );
    assert_eq!(
        LOOKUP_BASE_WIDTH,
        LookupBaseTableColumn::columns()
            .last()
            .unwrap()
            .base_table_index()
            + 1,
        "LookupTable's BASE_WIDTH is 1 + its max column index",
    );
    assert_eq!(
        U32_BASE_WIDTH,
        U32BaseTableColumn::columns()
            .last()
            .unwrap()
            .base_table_index()
            + 1,
        "U32Table's BASE_WIDTH is 1 + its max column index",
    );

    assert_eq!(
        PROGRAM_EXT_WIDTH,
        ProgramExtTableColumn::columns()
            .last()
            .unwrap()
            .ext_table_index()
            + 1,
        "ProgramTable's EXT_WIDTH is 1 + its max column index",
    );
    assert_eq!(
        PROCESSOR_EXT_WIDTH,
        ProcessorExtTableColumn::columns()
            .last()
            .unwrap()
            .ext_table_index()
            + 1,
        "ProcessorTable's EXT_WIDTH is 1 + its max column index",
    );
    assert_eq!(
        OP_STACK_EXT_WIDTH,
        OpStackExtTableColumn::columns()
            .last()
            .unwrap()
            .ext_table_index()
            + 1,
        "OpStack:Table's EXT_WIDTH is 1 + its max column index",
    );
    assert_eq!(
        RAM_EXT_WIDTH,
        RamExtTableColumn::columns()
            .last()
            .unwrap()
            .ext_table_index()
            + 1,
        "RamTable's EXT_WIDTH is 1 + its max column index",
    );
    assert_eq!(
        JUMP_STACK_EXT_WIDTH,
        JumpStackExtTableColumn::columns()
            .last()
            .unwrap()
            .ext_table_index()
            + 1,
        "JumpStack:Table's EXT_WIDTH is 1 + its max column index",
    );
    assert_eq!(
        HASH_EXT_WIDTH,
        HashExtTableColumn::columns()
            .last()
            .unwrap()
            .ext_table_index()
            + 1,
        "HashTable's EXT_WIDTH is 1 + its max column index",
    );
    assert_eq!(
        CASCADE_EXT_WIDTH,
        CascadeExtTableColumn::columns()
            .last()
            .unwrap()
            .ext_table_index()
            + 1,
        "CascadeTable's EXT_WIDTH is 1 + its max column index",
    );
    assert_eq!(
        LOOKUP_EXT_WIDTH,
        LookupExtTableColumn::columns()
            .last()
            .unwrap()
            .ext_table_index()
            + 1,
        "LookupTable's EXT_WIDTH is 1 + its max column index",
    );
    assert_eq!(
        U32_EXT_WIDTH,
        U32ExtTableColumn::columns()
            .last()
            .unwrap()
            .ext_table_index()
            + 1,
        "U32Table's EXT_WIDTH is 1 + its max column index",
    );
}

#[test]
fn master_base_table_is_contiguous() {
    let mut expected_column_index = 0;
    for column in ProgramBaseTableColumn::columns() {
        assert_eq!(expected_column_index, column.master_base_table_index());
        expected_column_index += 1;
    }
    for column in ProcessorBaseTableColumn::columns() {
        assert_eq!(expected_column_index, column.master_base_table_index());
        expected_column_index += 1;
    }
    for column in OpStackBaseTableColumn::columns() {
        assert_eq!(expected_column_index, column.master_base_table_index());
        expected_column_index += 1;
    }
    for column in RamBaseTableColumn::columns() {
        assert_eq!(expected_column_index, column.master_base_table_index());
        expected_column_index += 1;
    }
    for column in JumpStackBaseTableColumn::columns() {
        assert_eq!(expected_column_index, column.master_base_table_index());
        expected_column_index += 1;
    }
    for column in HashBaseTableColumn::columns() {
        assert_eq!(expected_column_index, column.master_base_table_index());
        expected_column_index += 1;
    }
    for column in CascadeBaseTableColumn::columns() {
        assert_eq!(expected_column_index, column.master_base_table_index());
        expected_column_index += 1;
    }
    for column in LookupBaseTableColumn::columns() {
        assert_eq!(expected_column_index, column.master_base_table_index());
        expected_column_index += 1;
    }
    for column in U32BaseTableColumn::columns() {
        assert_eq!(expected_column_index, column.master_base_table_index());
        expected_column_index += 1;
    }
    for column in DegreeLoweringBaseTableColumn::columns(NUM_DEGREE_LOWERING_COLUMNS) {
        assert_eq!(expected_column_index, column.master_base_table_index());
        expected_column_index += 1;
    }
}

#[test]
fn master_ext_table_is_contiguous() {
    let mut expected_column_index = 0;
    for column in ProgramExtTableColumn::columns() {
        assert_eq!(expected_column_index, column.master_ext_table_index());
        expected_column_index += 1;
    }
    for column in ProcessorExtTableColumn::columns() {
        assert_eq!(expected_column_index, column.master_ext_table_index());
        expected_column_index += 1;
    }
    for column in OpStackExtTableColumn::columns() {
        assert_eq!(expected_column_index, column.master_ext_table_index());
        expected_column_index += 1;
    }
    for column in RamExtTableColumn::columns() {
        assert_eq!(expected_column_index, column.master_ext_table_index());
        expected_column_index += 1;
    }
    for column in JumpStackExtTableColumn::columns() {
        assert_eq!(expected_column_index, column.master_ext_table_index());
        expected_column_index += 1;
    }
    for column in HashExtTableColumn::columns() {
        assert_eq!(expected_column_index, column.master_ext_table_index());
        expected_column_index += 1;
    }
    for column in CascadeExtTableColumn::columns() {
        assert_eq!(expected_column_index, column.master_ext_table_index());
        expected_column_index += 1;
    }
    for column in LookupExtTableColumn::columns() {
        assert_eq!(expected_column_index, column.master_ext_table_index());
        expected_column_index += 1;
    }
    for column in U32ExtTableColumn::columns() {
        assert_eq!(expected_column_index, column.master_ext_table_index());
        expected_column_index += 1;
    }
    for column in DegreeLoweringExtTableColumn::columns(NUM_DEGREE_LOWERING_COLUMNS) {
        assert_eq!(expected_column_index, column.master_ext_table_index());
        expected_column_index += 1;
    }
}

#[test]
fn master_indices_are_table_start_plus_local_index() {
    assert_eq!(0, ProgramBaseTableColumn::Address.master_base_table_index());
    assert_eq!(7, ProcessorBaseTableColumn::CLK.master_base_table_index());
    assert_eq!(62, HashBaseTableColumn::Mode.master_base_table_index());
    assert_eq!(2, HashBaseTableColumn::RoundNumber.base_table_index());
    assert_eq!(148, U32BaseTableColumn::LookupMultiplicity.master_base_table_index());
    assert_eq!(48, U32ExtTableColumn::LookupServerLogDerivative.master_ext_table_index());
    assert_eq!(10, ProcessorExtTableColumn::ClockJumpDifferenceLookupServerLogDerivative.ext_table_index());
}

#[test]
fn degree_lowering_columns_follow_all_native_columns() {
    assert_eq!(149, DEGREE_LOWERING_TABLE_START);
    assert_eq!(49, EXT_DEGREE_LOWERING_TABLE_START);
    let base = DegreeLoweringBaseTableColumn::columns(3);
    assert_eq!(3, base.len());
    assert_eq!(151, base[2].master_base_table_index());
    let ext = DegreeLoweringExtTableColumn::columns(0);
    assert!(ext.is_empty());
    assert_eq!(49, DegreeLoweringExtTableColumn { index: 0 }.master_ext_table_index());
}
