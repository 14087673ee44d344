//! Names for the columns of each functional table, and their indices: the column's position
//! within its own table, and its position within the master table, which lays out the columns of
//! all tables side by side, one table after another.

use vstd::prelude::*;

verus! {

/// The functional tables, in the order in which the master tables lay out their columns. The
/// degree-lowering table comes last.
#[derive(Debug, Clone, Copy, PartialEq, Eq, Hash, Structural)]
pub enum TableId {
    Program,
    Processor,
    OpStack,
    Ram,
    JumpStack,
    Hash,
    Cascade,
    Lookup,
    U32,
    DegreeLowering,
}

/// The tables in master-table order.
pub open spec fn table_order() -> Seq<TableId> {
    seq![
        TableId::Program,
        TableId::Processor,
        TableId::OpStack,
        TableId::Ram,
        TableId::JumpStack,
        TableId::Hash,
        TableId::Cascade,
        TableId::Lookup,
        TableId::U32,
        TableId::DegreeLowering,
    ]
}

/// The position of a table in `table_order()`.
pub open spec fn table_position(t: TableId) -> nat {
    match t {
        TableId::Program => 0,
        TableId::Processor => 1,
        TableId::OpStack => 2,
        TableId::Ram => 3,
        TableId::JumpStack => 4,
        TableId::Hash => 5,
        TableId::Cascade => 6,
        TableId::Lookup => 7,
        TableId::U32 => 8,
        TableId::DegreeLowering => 9,
    }
}

/// The indices of the integers `lo, lo + 1, ..., hi - 1`.
pub open spec fn index_range(lo: nat, hi: nat) -> Seq<nat> {
    Seq::new((hi - lo) as nat, |i: int| (lo + i) as nat)
}

/// A column of a table's base (main) part.
pub trait MasterBaseTableColumn {
    /// The table the column belongs to.
    spec fn spec_table(&self) -> TableId;

    /// The column's position within its own table.
    spec fn spec_base_table_index(&self) -> nat;

    /// The column's position within its own table.
    fn base_table_index(&self) -> (r: usize)
        ensures
            r == self.spec_base_table_index(),
    ;

    /// The column's position within the master base table.
    fn master_base_table_index(&self) -> (r: usize)
        ensures
            r == base_table_start(self.spec_table()) + self.spec_base_table_index(),
    ;
}

/// A column of a table's extension (auxiliary) part.
pub trait MasterExtTableColumn {
    /// The table the column belongs to.
    spec fn spec_table(&self) -> TableId;

    /// The column's position within its own table.
    spec fn spec_ext_table_index(&self) -> nat;

    /// The column's position within its own table.
    fn ext_table_index(&self) -> (r: usize)
        ensures
            r == self.spec_ext_table_index(),
    ;

    /// The column's position within the master extension table.
    fn master_ext_table_index(&self) -> (r: usize)
        ensures
            r == ext_table_start(self.spec_table()) + self.spec_ext_table_index(),
    ;
}

/// The number of base columns of the Program Table.
pub const PROGRAM_BASE_WIDTH: usize = 7;

/// The number of extension columns of the Program Table.
pub const PROGRAM_EXT_WIDTH: usize = 3;

/// The number of base columns of the Processor Table.
pub const PROCESSOR_BASE_WIDTH: usize = 39;

/// The number of extension columns of the Processor Table.
pub const PROCESSOR_EXT_WIDTH: usize = 11;

/// The number of base columns of the OpStack Table.
pub const OP_STACK_BASE_WIDTH: usize = 4;

/// The number of extension columns of the OpStack Table.
pub const OP_STACK_EXT_WIDTH: usize = 2;

/// The number of base columns of the Ram Table.
pub const RAM_BASE_WIDTH: usize = 7;

/// The number of extension columns of the Ram Table.
pub const RAM_EXT_WIDTH: usize = 6;

/// The number of base columns of the JumpStack Table.
pub const JUMP_STACK_BASE_WIDTH: usize = 5;

/// The number of extension columns of the JumpStack Table.
pub const JUMP_STACK_EXT_WIDTH: usize = 2;

/// The number of base columns of the Hash Table.
pub const HASH_BASE_WIDTH: usize = 67;

/// The number of extension columns of the Hash Table.
pub const HASH_EXT_WIDTH: usize = 20;

/// The number of base columns of the Cascade Table.
pub const CASCADE_BASE_WIDTH: usize = 6;

/// The number of extension columns of the Cascade Table.
pub const CASCADE_EXT_WIDTH: usize = 2;

/// The number of base columns of the Lookup Table.
pub const LOOKUP_BASE_WIDTH: usize = 4;

/// The number of extension columns of the Lookup Table.
pub const LOOKUP_EXT_WIDTH: usize = 2;

/// The number of base columns of the U32 Table.
pub const U32_BASE_WIDTH: usize = 10;

/// The number of extension columns of the U32 Table.
pub const U32_EXT_WIDTH: usize = 1;

/// The master base table's index of the first column of the Program Table.
pub const PROGRAM_TABLE_START: usize = 0;

/// The master base table's index of the first column of the Processor Table.
pub const PROCESSOR_TABLE_START: usize = PROGRAM_TABLE_START + PROGRAM_BASE_WIDTH;

/// The master base table's index of the first column of the OpStack Table.
pub const OP_STACK_TABLE_START: usize = PROCESSOR_TABLE_START + PROCESSOR_BASE_WIDTH;

/// The master base table's index of the first column of the Ram Table.
pub const RAM_TABLE_START: usize = OP_STACK_TABLE_START + OP_STACK_BASE_WIDTH;

/// The master base table's index of the first column of the JumpStack Table.
pub const JUMP_STACK_TABLE_START: usize = RAM_TABLE_START + RAM_BASE_WIDTH;

/// The master base table's index of the first column of the Hash Table.
pub const HASH_TABLE_START: usize = JUMP_STACK_TABLE_START + JUMP_STACK_BASE_WIDTH;

/// The master base table's index of the first column of the Cascade Table.
pub const CASCADE_TABLE_START: usize = HASH_TABLE_START + HASH_BASE_WIDTH;

/// The master base table's index of the first column of the Lookup Table.
pub const LOOKUP_TABLE_START: usize = CASCADE_TABLE_START + CASCADE_BASE_WIDTH;

/// The master base table's index of the first column of the U32 Table.
pub const U32_TABLE_START: usize = LOOKUP_TABLE_START + LOOKUP_BASE_WIDTH;

/// The master base table's index of the first column of the DegreeLowering Table.
pub const DEGREE_LOWERING_TABLE_START: usize = U32_TABLE_START + U32_BASE_WIDTH;

/// The master ext table's index of the first column of the Program Table.
pub const EXT_PROGRAM_TABLE_START: usize = 0;

/// The master ext table's index of the first column of the Processor Table.
pub const EXT_PROCESSOR_TABLE_START: usize = EXT_PROGRAM_TABLE_START + PROGRAM_EXT_WIDTH;

/// The master ext table's index of the first column of the OpStack Table.
pub const EXT_OP_STACK_TABLE_START: usize = EXT_PROCESSOR_TABLE_START + PROCESSOR_EXT_WIDTH;

/// The master ext table's index of the first column of the Ram Table.
pub const EXT_RAM_TABLE_START: usize = EXT_OP_STACK_TABLE_START + OP_STACK_EXT_WIDTH;

/// The master ext table's index of the first column of the JumpStack Table.
pub const EXT_JUMP_STACK_TABLE_START: usize = EXT_RAM_TABLE_START + RAM_EXT_WIDTH;

/// The master ext table's index of the first column of the Hash Table.
pub const EXT_HASH_TABLE_START: usize = EXT_JUMP_STACK_TABLE_START + JUMP_STACK_EXT_WIDTH;

/// The master ext table's index of the first column of the Cascade Table.
pub const EXT_CASCADE_TABLE_START: usize = EXT_HASH_TABLE_START + HASH_EXT_WIDTH;

/// The master ext table's index of the first column of the Lookup Table.
pub const EXT_LOOKUP_TABLE_START: usize = EXT_CASCADE_TABLE_START + CASCADE_EXT_WIDTH;

/// The master ext table's index of the first column of the U32 Table.
pub const EXT_U32_TABLE_START: usize = EXT_LOOKUP_TABLE_START + LOOKUP_EXT_WIDTH;

/// The master ext table's index of the first column of the DegreeLowering Table.
pub const EXT_DEGREE_LOWERING_TABLE_START: usize = EXT_U32_TABLE_START + U32_EXT_WIDTH;

/// The number of base columns of a native table. The degree-lowering table holds as many as
/// degree lowering allocated; it comes last, so no table's start depends on its width.
pub open spec fn base_width(t: TableId) -> nat {
    match t {
        TableId::Program => ProgramBaseTableColumn::spec_columns().len(),
        TableId::Processor => ProcessorBaseTableColumn::spec_columns().len(),
        TableId::OpStack => OpStackBaseTableColumn::spec_columns().len(),
        TableId::Ram => RamBaseTableColumn::spec_columns().len(),
        TableId::JumpStack => JumpStackBaseTableColumn::spec_columns().len(),
        TableId::Hash => HashBaseTableColumn::spec_columns().len(),
        TableId::Cascade => CascadeBaseTableColumn::spec_columns().len(),
        TableId::Lookup => LookupBaseTableColumn::spec_columns().len(),
        TableId::U32 => U32BaseTableColumn::spec_columns().len(),
        TableId::DegreeLowering => 0,
    }
}

/// The local indices of a native table's base columns, in enumeration order.
pub open spec fn base_column_indices(t: TableId) -> Seq<nat> {
    match t {
        TableId::Program => ProgramBaseTableColumn::spec_columns().map_values(
            |c: ProgramBaseTableColumn| c.spec_base_table_index(),
        ),
        TableId::Processor => ProcessorBaseTableColumn::spec_columns().map_values(
            |c: ProcessorBaseTableColumn| c.spec_base_table_index(),
        ),
        TableId::OpStack => OpStackBaseTableColumn::spec_columns().map_values(
            |c: OpStackBaseTableColumn| c.spec_base_table_index(),
        ),
        TableId::Ram => RamBaseTableColumn::spec_columns().map_values(
            |c: RamBaseTableColumn| c.spec_base_table_index(),
        ),
        TableId::JumpStack => JumpStackBaseTableColumn::spec_columns().map_values(
            |c: JumpStackBaseTableColumn| c.spec_base_table_index(),
        ),
        TableId::Hash => HashBaseTableColumn::spec_columns().map_values(
            |c: HashBaseTableColumn| c.spec_base_table_index(),
        ),
        TableId::Cascade => CascadeBaseTableColumn::spec_columns().map_values(
            |c: CascadeBaseTableColumn| c.spec_base_table_index(),
        ),
        TableId::Lookup => LookupBaseTableColumn::spec_columns().map_values(
            |c: LookupBaseTableColumn| c.spec_base_table_index(),
        ),
        TableId::U32 => U32BaseTableColumn::spec_columns().map_values(
            |c: U32BaseTableColumn| c.spec_base_table_index(),
        ),
        TableId::DegreeLowering => Seq::empty(),
    }
}

/// The summed base widths of the first `k` tables in master-table order.
pub open spec fn base_offset(k: nat) -> nat
    decreases k,
{
    if k == 0 || k > 9 {
        0
    } else {
        base_offset((k - 1) as nat) + base_width(table_order()[k - 1])
    }
}

/// The master base table's index of the first column of table `t`: the summed widths of the
/// tables before it.
pub open spec fn base_table_start(t: TableId) -> nat {
    base_offset(table_position(t))
}

/// The master base table's indices of a native table's columns, in enumeration order.
pub open spec fn master_base_indices_of(t: TableId) -> Seq<nat> {
    base_column_indices(t).map_values(|i: nat| base_table_start(t) + i)
}

/// The master base table's indices of all base columns: table after table in master-table
/// order, each table's in enumeration order, with `n` degree-lowering columns at the end.
pub open spec fn master_base_indices(n: nat) -> Seq<nat> {
    master_base_indices_of(TableId::Program)
        + master_base_indices_of(TableId::Processor)
        + master_base_indices_of(TableId::OpStack)
        + master_base_indices_of(TableId::Ram)
        + master_base_indices_of(TableId::JumpStack)
        + master_base_indices_of(TableId::Hash)
        + master_base_indices_of(TableId::Cascade)
        + master_base_indices_of(TableId::Lookup)
        + master_base_indices_of(TableId::U32)
        + DegreeLoweringBaseTableColumn::spec_columns(n).map_values(
            |c: DegreeLoweringBaseTableColumn|
                base_table_start(TableId::DegreeLowering) + c.spec_base_table_index(),
        )
}

/// The base widths and start constants agree with the enumerations.
pub proof fn lemma_base_table_starts()
    ensures
        PROGRAM_BASE_WIDTH == base_width(TableId::Program),
        PROCESSOR_BASE_WIDTH == base_width(TableId::Processor),
        OP_STACK_BASE_WIDTH == base_width(TableId::OpStack),
        RAM_BASE_WIDTH == base_width(TableId::Ram),
        JUMP_STACK_BASE_WIDTH == base_width(TableId::JumpStack),
        HASH_BASE_WIDTH == base_width(TableId::Hash),
        CASCADE_BASE_WIDTH == base_width(TableId::Cascade),
        LOOKUP_BASE_WIDTH == base_width(TableId::Lookup),
        U32_BASE_WIDTH == base_width(TableId::U32),
        PROGRAM_TABLE_START == base_table_start(TableId::Program),
        PROCESSOR_TABLE_START == base_table_start(TableId::Processor),
        OP_STACK_TABLE_START == base_table_start(TableId::OpStack),
        RAM_TABLE_START == base_table_start(TableId::Ram),
        JUMP_STACK_TABLE_START == base_table_start(TableId::JumpStack),
        HASH_TABLE_START == base_table_start(TableId::Hash),
        CASCADE_TABLE_START == base_table_start(TableId::Cascade),
        LOOKUP_TABLE_START == base_table_start(TableId::Lookup),
        U32_TABLE_START == base_table_start(TableId::U32),
        DEGREE_LOWERING_TABLE_START == base_table_start(TableId::DegreeLowering),
{
    reveal_with_fuel(base_offset, 10);
}

/// Each native table enumerates its base columns without gap: the column at position `i` has
/// local index `i`, so the number of columns is one more than the last column's index.
pub proof fn lemma_base_columns_are_gapless(t: TableId)
    requires
        t != TableId::DegreeLowering,
    ensures
        base_column_indices(t) == index_range(0, base_width(t)),
        base_column_indices(t).last() + 1 == base_width(t),
{
    assert(base_column_indices(t) =~= index_range(0, base_width(t)));
}

/// The master base table is contiguous: walking all base columns table by table in
/// master-table order gives the indices `0, 1, ..., total width - 1`, each once.
pub proof fn lemma_master_base_table_is_contiguous(n: nat)
    requires
        n <= u16::MAX + 1,
    ensures
        master_base_indices(n) == index_range(0, (DEGREE_LOWERING_TABLE_START + n) as nat),
{
    lemma_base_table_starts();
    let mut acc: Seq<nat> = Seq::empty();
    assert(acc =~= index_range(0, 0));
    lemma_base_columns_are_gapless(TableId::Program);
    assert(master_base_indices_of(TableId::Program) =~= index_range(
        PROGRAM_TABLE_START as nat,
        (PROGRAM_TABLE_START + PROGRAM_BASE_WIDTH) as nat,
    ));
    lemma_index_ranges_concatenate(0, PROGRAM_TABLE_START as nat, (PROGRAM_TABLE_START + PROGRAM_BASE_WIDTH) as nat);
    acc = acc + master_base_indices_of(TableId::Program);
    lemma_base_columns_are_gapless(TableId::Processor);
    assert(master_base_indices_of(TableId::Processor) =~= index_range(
        PROCESSOR_TABLE_START as nat,
        (PROCESSOR_TABLE_START + PROCESSOR_BASE_WIDTH) as nat,
    ));
    lemma_index_ranges_concatenate(0, PROCESSOR_TABLE_START as nat, (PROCESSOR_TABLE_START + PROCESSOR_BASE_WIDTH) as nat);
    acc = acc + master_base_indices_of(TableId::Processor);
    lemma_base_columns_are_gapless(TableId::OpStack);
    assert(master_base_indices_of(TableId::OpStack) =~= index_range(
        OP_STACK_TABLE_START as nat,
        (OP_STACK_TABLE_START + OP_STACK_BASE_WIDTH) as nat,
    ));
    lemma_index_ranges_concatenate(0, OP_STACK_TABLE_START as nat, (OP_STACK_TABLE_START + OP_STACK_BASE_WIDTH) as nat);
    acc = acc + master_base_indices_of(TableId::OpStack);
    lemma_base_columns_are_gapless(TableId::Ram);
    assert(master_base_indices_of(TableId::Ram) =~= index_range(
        RAM_TABLE_START as nat,
        (RAM_TABLE_START + RAM_BASE_WIDTH) as nat,
    ));
    lemma_index_ranges_concatenate(0, RAM_TABLE_START as nat, (RAM_TABLE_START + RAM_BASE_WIDTH) as nat);
    acc = acc + master_base_indices_of(TableId::Ram);
    lemma_base_columns_are_gapless(TableId::JumpStack);
    assert(master_base_indices_of(TableId::JumpStack) =~= index_range(
        JUMP_STACK_TABLE_START as nat,
        (JUMP_STACK_TABLE_START + JUMP_STACK_BASE_WIDTH) as nat,
    ));
    lemma_index_ranges_concatenate(0, JUMP_STACK_TABLE_START as nat, (JUMP_STACK_TABLE_START + JUMP_STACK_BASE_WIDTH) as nat);
    acc = acc + master_base_indices_of(TableId::JumpStack);
    lemma_base_columns_are_gapless(TableId::Hash);
    assert(master_base_indices_of(TableId::Hash) =~= index_range(
        HASH_TABLE_START as nat,
        (HASH_TABLE_START + HASH_BASE_WIDTH) as nat,
    ));
    lemma_index_ranges_concatenate(0, HASH_TABLE_START as nat, (HASH_TABLE_START + HASH_BASE_WIDTH) as nat);
    acc = acc + master_base_indices_of(TableId::Hash);
    lemma_base_columns_are_gapless(TableId::Cascade);
    assert(master_base_indices_of(TableId::Cascade) =~= index_range(
        CASCADE_TABLE_START as nat,
        (CASCADE_TABLE_START + CASCADE_BASE_WIDTH) as nat,
    ));
    lemma_index_ranges_concatenate(0, CASCADE_TABLE_START as nat, (CASCADE_TABLE_START + CASCADE_BASE_WIDTH) as nat);
    acc = acc + master_base_indices_of(TableId::Cascade);
    lemma_base_columns_are_gapless(TableId::Lookup);
    assert(master_base_indices_of(TableId::Lookup) =~= index_range(
        LOOKUP_TABLE_START as nat,
        (LOOKUP_TABLE_START + LOOKUP_BASE_WIDTH) as nat,
    ));
    lemma_index_ranges_concatenate(0, LOOKUP_TABLE_START as nat, (LOOKUP_TABLE_START + LOOKUP_BASE_WIDTH) as nat);
    acc = acc + master_base_indices_of(TableId::Lookup);
    lemma_base_columns_are_gapless(TableId::U32);
    assert(master_base_indices_of(TableId::U32) =~= index_range(
        U32_TABLE_START as nat,
        (U32_TABLE_START + U32_BASE_WIDTH) as nat,
    ));
    lemma_index_ranges_concatenate(0, U32_TABLE_START as nat, (U32_TABLE_START + U32_BASE_WIDTH) as nat);
    acc = acc + master_base_indices_of(TableId::U32);
    let tail = DegreeLoweringBaseTableColumn::spec_columns(n).map_values(
        |c: DegreeLoweringBaseTableColumn|
            base_table_start(TableId::DegreeLowering) + c.spec_base_table_index(),
    );
    assert(tail =~= index_range(DEGREE_LOWERING_TABLE_START as nat, (DEGREE_LOWERING_TABLE_START + n) as nat));
    lemma_index_ranges_concatenate(0, DEGREE_LOWERING_TABLE_START as nat, (DEGREE_LOWERING_TABLE_START + n) as nat);
    assert(master_base_indices(n) == acc + tail);
}

/// The number of extension columns of a native table. The degree-lowering table holds as many as
/// degree lowering allocated; it comes last, so no table's start depends on its width.
pub open spec fn ext_width(t: TableId) -> nat {
    match t {
        TableId::Program => ProgramExtTableColumn::spec_columns().len(),
        TableId::Processor => ProcessorExtTableColumn::spec_columns().len(),
        TableId::OpStack => OpStackExtTableColumn::spec_columns().len(),
        TableId::Ram => RamExtTableColumn::spec_columns().len(),
        TableId::JumpStack => JumpStackExtTableColumn::spec_columns().len(),
        TableId::Hash => HashExtTableColumn::spec_columns().len(),
        TableId::Cascade => CascadeExtTableColumn::spec_columns().len(),
        TableId::Lookup => LookupExtTableColumn::spec_columns().len(),
        TableId::U32 => U32ExtTableColumn::spec_columns().len(),
        TableId::DegreeLowering => 0,
    }
}

/// The local indices of a native table's extension columns, in enumeration order.
pub open spec fn ext_column_indices(t: TableId) -> Seq<nat> {
    match t {
        TableId::Program => ProgramExtTableColumn::spec_columns().map_values(
            |c: ProgramExtTableColumn| c.spec_ext_table_index(),
        ),
        TableId::Processor => ProcessorExtTableColumn::spec_columns().map_values(
            |c: ProcessorExtTableColumn| c.spec_ext_table_index(),
        ),
        TableId::OpStack => OpStackExtTableColumn::spec_columns().map_values(
            |c: OpStackExtTableColumn| c.spec_ext_table_index(),
        ),
        TableId::Ram => RamExtTableColumn::spec_columns().map_values(
            |c: RamExtTableColumn| c.spec_ext_table_index(),
        ),
        TableId::JumpStack => JumpStackExtTableColumn::spec_columns().map_values(
            |c: JumpStackExtTableColumn| c.spec_ext_table_index(),
        ),
        TableId::Hash => HashExtTableColumn::spec_columns().map_values(
            |c: HashExtTableColumn| c.spec_ext_table_index(),
        ),
        TableId::Cascade => CascadeExtTableColumn::spec_columns().map_values(
            |c: CascadeExtTableColumn| c.spec_ext_table_index(),
        ),
        TableId::Lookup => LookupExtTableColumn::spec_columns().map_values(
            |c: LookupExtTableColumn| c.spec_ext_table_index(),
        ),
        TableId::U32 => U32ExtTableColumn::spec_columns().map_values(
            |c: U32ExtTableColumn| c.spec_ext_table_index(),
        ),
        TableId::DegreeLowering => Seq::empty(),
    }
}

/// The summed extension widths of the first `k` tables in master-table order.
pub open spec fn ext_offset(k: nat) -> nat
    decreases k,
{
    if k == 0 || k > 9 {
        0
    } else {
        ext_offset((k - 1) as nat) + ext_width(table_order()[k - 1])
    }
}

/// The master extension table's index of the first column of table `t`: the summed widths of the
/// tables before it.
pub open spec fn ext_table_start(t: TableId) -> nat {
    ext_offset(table_position(t))
}

/// The master extension table's indices of a native table's columns, in enumeration order.
pub open spec fn master_ext_indices_of(t: TableId) -> Seq<nat> {
    ext_column_indices(t).map_values(|i: nat| ext_table_start(t) + i)
}

/// The master extension table's indices of all extension columns: table after table in master-table
/// order, each table's in enumeration order, with `n` degree-lowering columns at the end.
pub open spec fn master_ext_indices(n: nat) -> Seq<nat> {
    master_ext_indices_of(TableId::Program)
        + master_ext_indices_of(TableId::Processor)
        + master_ext_indices_of(TableId::OpStack)
        + master_ext_indices_of(TableId::Ram)
        + master_ext_indices_of(TableId::JumpStack)
        + master_ext_indices_of(TableId::Hash)
        + master_ext_indices_of(TableId::Cascade)
        + master_ext_indices_of(TableId::Lookup)
        + master_ext_indices_of(TableId::U32)
        + DegreeLoweringExtTableColumn::spec_columns(n).map_values(
            |c: DegreeLoweringExtTableColumn|
                ext_table_start(TableId::DegreeLowering) + c.spec_ext_table_index(),
        )
}

/// The extension widths and start constants agree with the enumerations.
pub proof fn lemma_ext_table_starts()
    ensures
        PROGRAM_EXT_WIDTH == ext_width(TableId::Program),
        PROCESSOR_EXT_WIDTH == ext_width(TableId::Processor),
        OP_STACK_EXT_WIDTH == ext_width(TableId::OpStack),
        RAM_EXT_WIDTH == ext_width(TableId::Ram),
        JUMP_STACK_EXT_WIDTH == ext_width(TableId::JumpStack),
        HASH_EXT_WIDTH == ext_width(TableId::Hash),
        CASCADE_EXT_WIDTH == ext_width(TableId::Cascade),
        LOOKUP_EXT_WIDTH == ext_width(TableId::Lookup),
        U32_EXT_WIDTH == ext_width(TableId::U32),
        EXT_PROGRAM_TABLE_START == ext_table_start(TableId::Program),
        EXT_PROCESSOR_TABLE_START == ext_table_start(TableId::Processor),
        EXT_OP_STACK_TABLE_START == ext_table_start(TableId::OpStack),
        EXT_RAM_TABLE_START == ext_table_start(TableId::Ram),
        EXT_JUMP_STACK_TABLE_START == ext_table_start(TableId::JumpStack),
        EXT_HASH_TABLE_START == ext_table_start(TableId::Hash),
        EXT_CASCADE_TABLE_START == ext_table_start(TableId::Cascade),
        EXT_LOOKUP_TABLE_START == ext_table_start(TableId::Lookup),
        EXT_U32_TABLE_START == ext_table_start(TableId::U32),
        EXT_DEGREE_LOWERING_TABLE_START == ext_table_start(TableId::DegreeLowering),
{
    reveal_with_fuel(ext_offset, 10);
}

/// Each native table enumerates its extension columns without gap: the column at position `i` has
/// local index `i`, so the number of columns is one more than the last column's index.
pub proof fn lemma_ext_columns_are_gapless(t: TableId)
    requires
        t != TableId::DegreeLowering,
    ensures
        ext_column_indices(t) == index_range(0, ext_width(t)),
        ext_column_indices(t).last() + 1 == ext_width(t),
{
    assert(ext_column_indices(t) =~= index_range(0, ext_width(t)));
}

/// The master extension table is contiguous: walking all extension columns table by table in
/// master-table order gives the indices `0, 1, ..., total width - 1`, each once.
pub proof fn lemma_master_ext_table_is_contiguous(n: nat)
    requires
        n <= u16::MAX + 1,
    ensures
        master_ext_indices(n) == index_range(0, (EXT_DEGREE_LOWERING_TABLE_START + n) as nat),
{
    lemma_ext_table_starts();
    let mut acc: Seq<nat> = Seq::empty();
    assert(acc =~= index_range(0, 0));
    lemma_ext_columns_are_gapless(TableId::Program);
    assert(master_ext_indices_of(TableId::Program) =~= index_range(
        EXT_PROGRAM_TABLE_START as nat,
        (EXT_PROGRAM_TABLE_START + PROGRAM_EXT_WIDTH) as nat,
    ));
    lemma_index_ranges_concatenate(0, EXT_PROGRAM_TABLE_START as nat, (EXT_PROGRAM_TABLE_START + PROGRAM_EXT_WIDTH) as nat);
    acc = acc + master_ext_indices_of(TableId::Program);
    lemma_ext_columns_are_gapless(TableId::Processor);
    assert(master_ext_indices_of(TableId::Processor) =~= index_range(
        EXT_PROCESSOR_TABLE_START as nat,
        (EXT_PROCESSOR_TABLE_START + PROCESSOR_EXT_WIDTH) as nat,
    ));
    lemma_index_ranges_concatenate(0, EXT_PROCESSOR_TABLE_START as nat, (EXT_PROCESSOR_TABLE_START + PROCESSOR_EXT_WIDTH) as nat);
    acc = acc + master_ext_indices_of(TableId::Processor);
    lemma_ext_columns_are_gapless(TableId::OpStack);
    assert(master_ext_indices_of(TableId::OpStack) =~= index_range(
        EXT_OP_STACK_TABLE_START as nat,
        (EXT_OP_STACK_TABLE_START + OP_STACK_EXT_WIDTH) as nat,
    ));
    lemma_index_ranges_concatenate(0, EXT_OP_STACK_TABLE_START as nat, (EXT_OP_STACK_TABLE_START + OP_STACK_EXT_WIDTH) as nat);
    acc = acc + master_ext_indices_of(TableId::OpStack);
    lemma_ext_columns_are_gapless(TableId::Ram);
    assert(master_ext_indices_of(TableId::Ram) =~= index_range(
        EXT_RAM_TABLE_START as nat,
        (EXT_RAM_TABLE_START + RAM_EXT_WIDTH) as nat,
    ));
    lemma_index_ranges_concatenate(0, EXT_RAM_TABLE_START as nat, (EXT_RAM_TABLE_START + RAM_EXT_WIDTH) as nat);
    acc = acc + master_ext_indices_of(TableId::Ram);
    lemma_ext_columns_are_gapless(TableId::JumpStack);
    assert(master_ext_indices_of(TableId::JumpStack) =~= index_range(
        EXT_JUMP_STACK_TABLE_START as nat,
        (EXT_JUMP_STACK_TABLE_START + JUMP_STACK_EXT_WIDTH) as nat,
    ));
    lemma_index_ranges_concatenate(0, EXT_JUMP_STACK_TABLE_START as nat, (EXT_JUMP_STACK_TABLE_START + JUMP_STACK_EXT_WIDTH) as nat);
    acc = acc + master_ext_indices_of(TableId::JumpStack);
    lemma_ext_columns_are_gapless(TableId::Hash);
    assert(master_ext_indices_of(TableId::Hash) =~= index_range(
        EXT_HASH_TABLE_START as nat,
        (EXT_HASH_TABLE_START + HASH_EXT_WIDTH) as nat,
    ));
    lemma_index_ranges_concatenate(0, EXT_HASH_TABLE_START as nat, (EXT_HASH_TABLE_START + HASH_EXT_WIDTH) as nat);
    acc = acc + master_ext_indices_of(TableId::Hash);
    lemma_ext_columns_are_gapless(TableId::Cascade);
    assert(master_ext_indices_of(TableId::Cascade) =~= index_range(
        EXT_CASCADE_TABLE_START as nat,
        (EXT_CASCADE_TABLE_START + CASCADE_EXT_WIDTH) as nat,
    ));
    lemma_index_ranges_concatenate(0, EXT_CASCADE_TABLE_START as nat, (EXT_CASCADE_TABLE_START + CASCADE_EXT_WIDTH) as nat);
    acc = acc + master_ext_indices_of(TableId::Cascade);
    lemma_ext_columns_are_gapless(TableId::Lookup);
    assert(master_ext_indices_of(TableId::Lookup) =~= index_range(
        EXT_LOOKUP_TABLE_START as nat,
        (EXT_LOOKUP_TABLE_START + LOOKUP_EXT_WIDTH) as nat,
    ));
    lemma_index_ranges_concatenate(0, EXT_LOOKUP_TABLE_START as nat, (EXT_LOOKUP_TABLE_START + LOOKUP_EXT_WIDTH) as nat);
    acc = acc + master_ext_indices_of(TableId::Lookup);
    lemma_ext_columns_are_gapless(TableId::U32);
    assert(master_ext_indices_of(TableId::U32) =~= index_range(
        EXT_U32_TABLE_START as nat,
        (EXT_U32_TABLE_START + U32_EXT_WIDTH) as nat,
    ));
    lemma_index_ranges_concatenate(0, EXT_U32_TABLE_START as nat, (EXT_U32_TABLE_START + U32_EXT_WIDTH) as nat);
    acc = acc + master_ext_indices_of(TableId::U32);
    let tail = DegreeLoweringExtTableColumn::spec_columns(n).map_values(
        |c: DegreeLoweringExtTableColumn|
            ext_table_start(TableId::DegreeLowering) + c.spec_ext_table_index(),
    );
    assert(tail =~= index_range(EXT_DEGREE_LOWERING_TABLE_START as nat, (EXT_DEGREE_LOWERING_TABLE_START + n) as nat));
    lemma_index_ranges_concatenate(0, EXT_DEGREE_LOWERING_TABLE_START as nat, (EXT_DEGREE_LOWERING_TABLE_START + n) as nat);
    assert(master_ext_indices(n) == acc + tail);
}

#[derive(Debug, Clone, Copy, PartialEq, Eq, Hash, Structural)]
pub enum ProgramBaseTableColumn {
    /// An instruction's address.
    Address,
    /// The (opcode of the) instruction.
    Instruction,
    /// How often an instruction has been executed.
    LookupMultiplicity,
    /// The index in the vector of length `Rate` that is to be absorbed in the Sponge
    /// in order to compute the program's digest.
    /// In other words:
    /// `Address` modulo `Rate`.
    IndexInChunk,
    /// The inverse-or-zero of `Rate` - 1 - `IndexInChunk`.
    /// Helper variable to guarantee `IndexInChunk`'s correct transition.
    MaxMinusIndexInChunkInv,
    /// Padding indicator for absorbing the program into the Sponge.
    IsHashInputPadding,
    /// Padding indicator for rows only required due to the dominating length of some other table.
    IsTablePadding,
}

impl ProgramBaseTableColumn {
    /// All columns of the table, in enumeration order.
    pub open spec fn spec_columns() -> Seq<Self> {
        seq![
            ProgramBaseTableColumn::Address,
            ProgramBaseTableColumn::Instruction,
            ProgramBaseTableColumn::LookupMultiplicity,
            ProgramBaseTableColumn::IndexInChunk,
            ProgramBaseTableColumn::MaxMinusIndexInChunkInv,
            ProgramBaseTableColumn::IsHashInputPadding,
            ProgramBaseTableColumn::IsTablePadding,
        ]
    }

    /// All columns of the table, in enumeration order.
    pub fn columns() -> (r: Vec<Self>)
        ensures
            r@ == Self::spec_columns(),
    {
        let r = vec![
            ProgramBaseTableColumn::Address,
            ProgramBaseTableColumn::Instruction,
            ProgramBaseTableColumn::LookupMultiplicity,
            ProgramBaseTableColumn::IndexInChunk,
            ProgramBaseTableColumn::MaxMinusIndexInChunkInv,
            ProgramBaseTableColumn::IsHashInputPadding,
            ProgramBaseTableColumn::IsTablePadding,
        ];
        assert(r@ =~= Self::spec_columns());
        r
    }
}

impl MasterBaseTableColumn for ProgramBaseTableColumn {
    open spec fn spec_table(&self) -> TableId {
        TableId::Program
    }

    open spec fn spec_base_table_index(&self) -> nat {
        match self {
            ProgramBaseTableColumn::Address => 0,
            ProgramBaseTableColumn::Instruction => 1,
            ProgramBaseTableColumn::LookupMultiplicity => 2,
            ProgramBaseTableColumn::IndexInChunk => 3,
            ProgramBaseTableColumn::MaxMinusIndexInChunkInv => 4,
            ProgramBaseTableColumn::IsHashInputPadding => 5,
            ProgramBaseTableColumn::IsTablePadding => 6,
        }
    }

    fn base_table_index(&self) -> (r: usize) {
        *self as usize
    }

    fn master_base_table_index(&self) -> (r: usize) {
        proof {
            lemma_base_table_starts();
        }
        PROGRAM_TABLE_START + self.base_table_index()
    }
}

#[derive(Debug, Clone, Copy, PartialEq, Eq, Hash, Structural)]
pub enum ProgramExtTableColumn {
    /// The server part of the instruction lookup.
    ///
    /// The counterpart to `InstructionLookupClientLogDerivative`.
    InstructionLookupServerLogDerivative,
    /// An evaluation argument accumulating `RATE` many instructions before
    /// they are sent using `SendChunkEvalArg`.
    /// Resets to zero after each chunk.
    /// Relevant for program attestation.
    PrepareChunkRunningEvaluation,
    /// An evaluation argument over all `RATE`-sized chunks of instructions,
    /// which are prepared in `PrepareChunkEvalArg`.
    /// This bus is used for sending those chunks to the Hash Table.
    /// Relevant for program attestation.
    ///
    /// The counterpart to `RcvChunkEvalArg`.
    SendChunkRunningEvaluation,
}

impl ProgramExtTableColumn {
    /// All columns of the table, in enumeration order.
    pub open spec fn spec_columns() -> Seq<Self> {
        seq![
            ProgramExtTableColumn::InstructionLookupServerLogDerivative,
            ProgramExtTableColumn::PrepareChunkRunningEvaluation,
            ProgramExtTableColumn::SendChunkRunningEvaluation,
        ]
    }

    /// All columns of the table, in enumeration order.
    pub fn columns() -> (r: Vec<Self>)
        ensures
            r@ == Self::spec_columns(),
    {
        let r = vec![
            ProgramExtTableColumn::InstructionLookupServerLogDerivative,
            ProgramExtTableColumn::PrepareChunkRunningEvaluation,
            ProgramExtTableColumn::SendChunkRunningEvaluation,
        ];
        assert(r@ =~= Self::spec_columns());
        r
    }
}

impl MasterExtTableColumn for ProgramExtTableColumn {
    open spec fn spec_table(&self) -> TableId {
        TableId::Program
    }

    open spec fn spec_ext_table_index(&self) -> nat {
        match self {
            ProgramExtTableColumn::InstructionLookupServerLogDerivative => 0,
            ProgramExtTableColumn::PrepareChunkRunningEvaluation => 1,
            ProgramExtTableColumn::SendChunkRunningEvaluation => 2,
        }
    }

    fn ext_table_index(&self) -> (r: usize) {
        *self as usize
    }

    fn master_ext_table_index(&self) -> (r: usize) {
        proof {
            lemma_ext_table_starts();
        }
        EXT_PROGRAM_TABLE_START + self.ext_table_index()
    }
}

#[derive(Debug, Clone, Copy, PartialEq, Eq, Hash, Structural)]
pub enum ProcessorBaseTableColumn {
    CLK,
    IsPadding,
    IP,
    CI,
    NIA,
    IB0,
    IB1,
    IB2,
    IB3,
    IB4,
    IB5,
    IB6,
    JSP,
    JSO,
    JSD,
    ST0,
    ST1,
    ST2,
    ST3,
    ST4,
    ST5,
    ST6,
    ST7,
    ST8,
    ST9,
    ST10,
    ST11,
    ST12,
    ST13,
    ST14,
    ST15,
    OpStackPointer,
    HV0,
    HV1,
    HV2,
    HV3,
    HV4,
    HV5,
    /// The number of clock jump differences of magnitude `CLK` in all memory-like tables.
    ClockJumpDifferenceLookupMultiplicity,
}

impl ProcessorBaseTableColumn {
    /// All columns of the table, in enumeration order.
    pub open spec fn spec_columns() -> Seq<Self> {
        seq![
            ProcessorBaseTableColumn::CLK,
            ProcessorBaseTableColumn::IsPadding,
            ProcessorBaseTableColumn::IP,
            ProcessorBaseTableColumn::CI,
            ProcessorBaseTableColumn::NIA,
            ProcessorBaseTableColumn::IB0,
            ProcessorBaseTableColumn::IB1,
            ProcessorBaseTableColumn::IB2,
            ProcessorBaseTableColumn::IB3,
            ProcessorBaseTableColumn::IB4,
            ProcessorBaseTableColumn::IB5,
            ProcessorBaseTableColumn::IB6,
            ProcessorBaseTableColumn::JSP,
            ProcessorBaseTableColumn::JSO,
            ProcessorBaseTableColumn::JSD,
            ProcessorBaseTableColumn::ST0,
            ProcessorBaseTableColumn::ST1,
            ProcessorBaseTableColumn::ST2,
            ProcessorBaseTableColumn::ST3,
            ProcessorBaseTableColumn::ST4,
            ProcessorBaseTableColumn::ST5,
            ProcessorBaseTableColumn::ST6,
            ProcessorBaseTableColumn::ST7,
            ProcessorBaseTableColumn::ST8,
            ProcessorBaseTableColumn::ST9,
            ProcessorBaseTableColumn::ST10,
            ProcessorBaseTableColumn::ST11,
            ProcessorBaseTableColumn::ST12,
            ProcessorBaseTableColumn::ST13,
            ProcessorBaseTableColumn::ST14,
            ProcessorBaseTableColumn::ST15,
            ProcessorBaseTableColumn::OpStackPointer,
            ProcessorBaseTableColumn::HV0,
            ProcessorBaseTableColumn::HV1,
            ProcessorBaseTableColumn::HV2,
            ProcessorBaseTableColumn::HV3,
            ProcessorBaseTableColumn::HV4,
            ProcessorBaseTableColumn::HV5,
            ProcessorBaseTableColumn::ClockJumpDifferenceLookupMultiplicity,
        ]
    }

    /// All columns of the table, in enumeration order.
    pub fn columns() -> (r: Vec<Self>)
        ensures
            r@ == Self::spec_columns(),
    {
        let r = vec![
            ProcessorBaseTableColumn::CLK,
            ProcessorBaseTableColumn::IsPadding,
            ProcessorBaseTableColumn::IP,
            ProcessorBaseTableColumn::CI,
            ProcessorBaseTableColumn::NIA,
            ProcessorBaseTableColumn::IB0,
            ProcessorBaseTableColumn::IB1,
            ProcessorBaseTableColumn::IB2,
            ProcessorBaseTableColumn::IB3,
            ProcessorBaseTableColumn::IB4,
            ProcessorBaseTableColumn::IB5,
            ProcessorBaseTableColumn::IB6,
            ProcessorBaseTableColumn::JSP,
            ProcessorBaseTableColumn::JSO,
            ProcessorBaseTableColumn::JSD,
            ProcessorBaseTableColumn::ST0,
            ProcessorBaseTableColumn::ST1,
            ProcessorBaseTableColumn::ST2,
            ProcessorBaseTableColumn::ST3,
            ProcessorBaseTableColumn::ST4,
            ProcessorBaseTableColumn::ST5,
            ProcessorBaseTableColumn::ST6,
            ProcessorBaseTableColumn::ST7,
            ProcessorBaseTableColumn::ST8,
            ProcessorBaseTableColumn::ST9,
            ProcessorBaseTableColumn::ST10,
            ProcessorBaseTableColumn::ST11,
            ProcessorBaseTableColumn::ST12,
            ProcessorBaseTableColumn::ST13,
            ProcessorBaseTableColumn::ST14,
            ProcessorBaseTableColumn::ST15,
            ProcessorBaseTableColumn::OpStackPointer,
            ProcessorBaseTableColumn::HV0,
            ProcessorBaseTableColumn::HV1,
            ProcessorBaseTableColumn::HV2,
            ProcessorBaseTableColumn::HV3,
            ProcessorBaseTableColumn::HV4,
            ProcessorBaseTableColumn::HV5,
            ProcessorBaseTableColumn::ClockJumpDifferenceLookupMultiplicity,
        ];
        assert(r@ =~= Self::spec_columns());
        r
    }
}

impl MasterBaseTableColumn for ProcessorBaseTableColumn {
    open spec fn spec_table(&self) -> TableId {
        TableId::Processor
    }

    open spec fn spec_base_table_index(&self) -> nat {
        match self {
            ProcessorBaseTableColumn::CLK => 0,
            ProcessorBaseTableColumn::IsPadding => 1,
            ProcessorBaseTableColumn::IP => 2,
            ProcessorBaseTableColumn::CI => 3,
            ProcessorBaseTableColumn::NIA => 4,
            ProcessorBaseTableColumn::IB0 => 5,
            ProcessorBaseTableColumn::IB1 => 6,
            ProcessorBaseTableColumn::IB2 => 7,
            ProcessorBaseTableColumn::IB3 => 8,
            ProcessorBaseTableColumn::IB4 => 9,
            ProcessorBaseTableColumn::IB5 => 10,
            ProcessorBaseTableColumn::IB6 => 11,
            ProcessorBaseTableColumn::JSP => 12,
            ProcessorBaseTableColumn::JSO => 13,
            ProcessorBaseTableColumn::JSD => 14,
            ProcessorBaseTableColumn::ST0 => 15,
            ProcessorBaseTableColumn::ST1 => 16,
            ProcessorBaseTableColumn::ST2 => 17,
            ProcessorBaseTableColumn::ST3 => 18,
            ProcessorBaseTableColumn::ST4 => 19,
            ProcessorBaseTableColumn::ST5 => 20,
            ProcessorBaseTableColumn::ST6 => 21,
            ProcessorBaseTableColumn::ST7 => 22,
            ProcessorBaseTableColumn::ST8 => 23,
            ProcessorBaseTableColumn::ST9 => 24,
            ProcessorBaseTableColumn::ST10 => 25,
            ProcessorBaseTableColumn::ST11 => 26,
            ProcessorBaseTableColumn::ST12 => 27,
            ProcessorBaseTableColumn::ST13 => 28,
            ProcessorBaseTableColumn::ST14 => 29,
            ProcessorBaseTableColumn::ST15 => 30,
            ProcessorBaseTableColumn::OpStackPointer => 31,
            ProcessorBaseTableColumn::HV0 => 32,
            ProcessorBaseTableColumn::HV1 => 33,
            ProcessorBaseTableColumn::HV2 => 34,
            ProcessorBaseTableColumn::HV3 => 35,
            ProcessorBaseTableColumn::HV4 => 36,
            ProcessorBaseTableColumn::HV5 => 37,
            ProcessorBaseTableColumn::ClockJumpDifferenceLookupMultiplicity => 38,
        }
    }

    fn base_table_index(&self) -> (r: usize) {
        *self as usize
    }

    fn master_base_table_index(&self) -> (r: usize) {
        proof {
            lemma_base_table_starts();
        }
        PROCESSOR_TABLE_START + self.base_table_index()
    }
}

#[derive(Debug, Clone, Copy, PartialEq, Eq, Hash, Structural)]
pub enum ProcessorExtTableColumn {
    InputTableEvalArg,
    OutputTableEvalArg,
    InstructionLookupClientLogDerivative,
    OpStackTablePermArg,
    RamTablePermArg,
    JumpStackTablePermArg,
    /// For copying the hash function's input to the hash coprocessor.
    HashInputEvalArg,
    /// For copying the hash digest from the hash coprocessor.
    HashDigestEvalArg,
    /// For copying the RATE next to-be-absorbed to the hash coprocessor and the RATE squeezed
    /// elements from the hash coprocessor, depending on the executed instruction.
    SpongeEvalArg,
    /// The (running sum of the) logarithmic derivative for the Lookup Argument with the U32 Table.
    U32LookupClientLogDerivative,
    /// The (running sum of the) logarithmic derivative for the clock jump difference Lookup
    /// Argument with the memory-like tables.
    ClockJumpDifferenceLookupServerLogDerivative,
}

impl ProcessorExtTableColumn {
    /// All columns of the table, in enumeration order.
    pub open spec fn spec_columns() -> Seq<Self> {
        seq![
            ProcessorExtTableColumn::InputTableEvalArg,
            ProcessorExtTableColumn::OutputTableEvalArg,
            ProcessorExtTableColumn::InstructionLookupClientLogDerivative,
            ProcessorExtTableColumn::OpStackTablePermArg,
            ProcessorExtTableColumn::RamTablePermArg,
            ProcessorExtTableColumn::JumpStackTablePermArg,
            ProcessorExtTableColumn::HashInputEvalArg,
            ProcessorExtTableColumn::HashDigestEvalArg,
            ProcessorExtTableColumn::SpongeEvalArg,
            ProcessorExtTableColumn::U32LookupClientLogDerivative,
            ProcessorExtTableColumn::ClockJumpDifferenceLookupServerLogDerivative,
        ]
    }

    /// All columns of the table, in enumeration order.
    pub fn columns() -> (r: Vec<Self>)
        ensures
            r@ == Self::spec_columns(),
    {
        let r = vec![
            ProcessorExtTableColumn::InputTableEvalArg,
            ProcessorExtTableColumn::OutputTableEvalArg,
            ProcessorExtTableColumn::InstructionLookupClientLogDerivative,
            ProcessorExtTableColumn::OpStackTablePermArg,
            ProcessorExtTableColumn::RamTablePermArg,
            ProcessorExtTableColumn::JumpStackTablePermArg,
            ProcessorExtTableColumn::HashInputEvalArg,
            ProcessorExtTableColumn::HashDigestEvalArg,
            ProcessorExtTableColumn::SpongeEvalArg,
            ProcessorExtTableColumn::U32LookupClientLogDerivative,
            ProcessorExtTableColumn::ClockJumpDifferenceLookupServerLogDerivative,
        ];
        assert(r@ =~= Self::spec_columns());
        r
    }
}

impl MasterExtTableColumn for ProcessorExtTableColumn {
    open spec fn spec_table(&self) -> TableId {
        TableId::Processor
    }

    open spec fn spec_ext_table_index(&self) -> nat {
        match self {
            ProcessorExtTableColumn::InputTableEvalArg => 0,
            ProcessorExtTableColumn::OutputTableEvalArg => 1,
            ProcessorExtTableColumn::InstructionLookupClientLogDerivative => 2,
            ProcessorExtTableColumn::OpStackTablePermArg => 3,
            ProcessorExtTableColumn::RamTablePermArg => 4,
            ProcessorExtTableColumn::JumpStackTablePermArg => 5,
            ProcessorExtTableColumn::HashInputEvalArg => 6,
            ProcessorExtTableColumn::HashDigestEvalArg => 7,
            ProcessorExtTableColumn::SpongeEvalArg => 8,
            ProcessorExtTableColumn::U32LookupClientLogDerivative => 9,
            ProcessorExtTableColumn::ClockJumpDifferenceLookupServerLogDerivative => 10,
        }
    }

    fn ext_table_index(&self) -> (r: usize) {
        *self as usize
    }

    fn master_ext_table_index(&self) -> (r: usize) {
        proof {
            lemma_ext_table_starts();
        }
        EXT_PROCESSOR_TABLE_START + self.ext_table_index()
    }
}

#[derive(Debug, Clone, Copy, PartialEq, Eq, Hash, Structural)]
pub enum OpStackBaseTableColumn {
    CLK,
    IB1ShrinkStack,
    StackPointer,
    FirstUnderflowElement,
}

impl OpStackBaseTableColumn {
    /// All columns of the table, in enumeration order.
    pub open spec fn spec_columns() -> Seq<Self> {
        seq![
            OpStackBaseTableColumn::CLK,
            OpStackBaseTableColumn::IB1ShrinkStack,
            OpStackBaseTableColumn::StackPointer,
            OpStackBaseTableColumn::FirstUnderflowElement,
        ]
    }

    /// All columns of the table, in enumeration order.
    pub fn columns() -> (r: Vec<Self>)
        ensures
            r@ == Self::spec_columns(),
    {
        let r = vec![
            OpStackBaseTableColumn::CLK,
            OpStackBaseTableColumn::IB1ShrinkStack,
            OpStackBaseTableColumn::StackPointer,
            OpStackBaseTableColumn::FirstUnderflowElement,
        ];
        assert(r@ =~= Self::spec_columns());
        r
    }
}

impl MasterBaseTableColumn for OpStackBaseTableColumn {
    open spec fn spec_table(&self) -> TableId {
        TableId::OpStack
    }

    open spec fn spec_base_table_index(&self) -> nat {
        match self {
            OpStackBaseTableColumn::CLK => 0,
            OpStackBaseTableColumn::IB1ShrinkStack => 1,
            OpStackBaseTableColumn::StackPointer => 2,
            OpStackBaseTableColumn::FirstUnderflowElement => 3,
        }
    }

    fn base_table_index(&self) -> (r: usize) {
        *self as usize
    }

    fn master_base_table_index(&self) -> (r: usize) {
        proof {
            lemma_base_table_starts();
        }
        OP_STACK_TABLE_START + self.base_table_index()
    }
}

#[derive(Debug, Clone, Copy, PartialEq, Eq, Hash, Structural)]
pub enum OpStackExtTableColumn {
    RunningProductPermArg,
    /// The (running sum of the) logarithmic derivative for the clock jump difference Lookup
    /// Argument with the Processor Table.
    ClockJumpDifferenceLookupClientLogDerivative,
}

impl OpStackExtTableColumn {
    /// All columns of the table, in enumeration order.
    pub open spec fn spec_columns() -> Seq<Self> {
        seq![
            OpStackExtTableColumn::RunningProductPermArg,
            OpStackExtTableColumn::ClockJumpDifferenceLookupClientLogDerivative,
        ]
    }

    /// All columns of the table, in enumeration order.
    pub fn columns() -> (r: Vec<Self>)
        ensures
            r@ == Self::spec_columns(),
    {
        let r = vec![
            OpStackExtTableColumn::RunningProductPermArg,
            OpStackExtTableColumn::ClockJumpDifferenceLookupClientLogDerivative,
        ];
        assert(r@ =~= Self::spec_columns());
        r
    }
}

impl MasterExtTableColumn for OpStackExtTableColumn {
    open spec fn spec_table(&self) -> TableId {
        TableId::OpStack
    }

    open spec fn spec_ext_table_index(&self) -> nat {
        match self {
            OpStackExtTableColumn::RunningProductPermArg => 0,
            OpStackExtTableColumn::ClockJumpDifferenceLookupClientLogDerivative => 1,
        }
    }

    fn ext_table_index(&self) -> (r: usize) {
        *self as usize
    }

    fn master_ext_table_index(&self) -> (r: usize) {
        proof {
            lemma_ext_table_starts();
        }
        EXT_OP_STACK_TABLE_START + self.ext_table_index()
    }
}

#[derive(Debug, Clone, Copy, PartialEq, Eq, Hash, Structural)]
pub enum RamBaseTableColumn {
    CLK,
    /// Is `INSTRUCTION_TYPE_READ` for instruction `read_mem` and `INSTRUCTION_TYPE_WRITE`
    /// for instruction `write_mem`. For padding rows, this is set to `PADDING_INDICATOR`.
    InstructionType,
    RamPointer,
    RamValue,
    InverseOfRampDifference,
    BezoutCoefficientPolynomialCoefficient0,
    BezoutCoefficientPolynomialCoefficient1,
}

impl RamBaseTableColumn {
    /// All columns of the table, in enumeration order.
    pub open spec fn spec_columns() -> Seq<Self> {
        seq![
            RamBaseTableColumn::CLK,
            RamBaseTableColumn::InstructionType,
            RamBaseTableColumn::RamPointer,
            RamBaseTableColumn::RamValue,
            RamBaseTableColumn::InverseOfRampDifference,
            RamBaseTableColumn::BezoutCoefficientPolynomialCoefficient0,
            RamBaseTableColumn::BezoutCoefficientPolynomialCoefficient1,
        ]
    }

    /// All columns of the table, in enumeration order.
    pub fn columns() -> (r: Vec<Self>)
        ensures
            r@ == Self::spec_columns(),
    {
        let r = vec![
            RamBaseTableColumn::CLK,
            RamBaseTableColumn::InstructionType,
            RamBaseTableColumn::RamPointer,
            RamBaseTableColumn::RamValue,
            RamBaseTableColumn::InverseOfRampDifference,
            RamBaseTableColumn::BezoutCoefficientPolynomialCoefficient0,
            RamBaseTableColumn::BezoutCoefficientPolynomialCoefficient1,
        ];
        assert(r@ =~= Self::spec_columns());
        r
    }
}

impl MasterBaseTableColumn for RamBaseTableColumn {
    open spec fn spec_table(&self) -> TableId {
        TableId::Ram
    }

    open spec fn spec_base_table_index(&self) -> nat {
        match self {
            RamBaseTableColumn::CLK => 0,
            RamBaseTableColumn::InstructionType => 1,
            RamBaseTableColumn::RamPointer => 2,
            RamBaseTableColumn::RamValue => 3,
            RamBaseTableColumn::InverseOfRampDifference => 4,
            RamBaseTableColumn::BezoutCoefficientPolynomialCoefficient0 => 5,
            RamBaseTableColumn::BezoutCoefficientPolynomialCoefficient1 => 6,
        }
    }

    fn base_table_index(&self) -> (r: usize) {
        *self as usize
    }

    fn master_base_table_index(&self) -> (r: usize) {
        proof {
            lemma_base_table_starts();
        }
        RAM_TABLE_START + self.base_table_index()
    }
}

#[derive(Debug, Clone, Copy, PartialEq, Eq, Hash, Structural)]
pub enum RamExtTableColumn {
    RunningProductOfRAMP,
    FormalDerivative,
    BezoutCoefficient0,
    BezoutCoefficient1,
    RunningProductPermArg,
    /// The (running sum of the) logarithmic derivative for the clock jump difference Lookup
    /// Argument with the Processor Table.
    ClockJumpDifferenceLookupClientLogDerivative,
}

impl RamExtTableColumn {
    /// All columns of the table, in enumeration order.
    pub open spec fn spec_columns() -> Seq<Self> {
        seq![
            RamExtTableColumn::RunningProductOfRAMP,
            RamExtTableColumn::FormalDerivative,
            RamExtTableColumn::BezoutCoefficient0,
            RamExtTableColumn::BezoutCoefficient1,
            RamExtTableColumn::RunningProductPermArg,
            RamExtTableColumn::ClockJumpDifferenceLookupClientLogDerivative,
        ]
    }

    /// All columns of the table, in enumeration order.
    pub fn columns() -> (r: Vec<Self>)
        ensures
            r@ == Self::spec_columns(),
    {
        let r = vec![
            RamExtTableColumn::RunningProductOfRAMP,
            RamExtTableColumn::FormalDerivative,
            RamExtTableColumn::BezoutCoefficient0,
            RamExtTableColumn::BezoutCoefficient1,
            RamExtTableColumn::RunningProductPermArg,
            RamExtTableColumn::ClockJumpDifferenceLookupClientLogDerivative,
        ];
        assert(r@ =~= Self::spec_columns());
        r
    }
}

impl MasterExtTableColumn for RamExtTableColumn {
    open spec fn spec_table(&self) -> TableId {
        TableId::Ram
    }

    open spec fn spec_ext_table_index(&self) -> nat {
        match self {
            RamExtTableColumn::RunningProductOfRAMP => 0,
            RamExtTableColumn::FormalDerivative => 1,
            RamExtTableColumn::BezoutCoefficient0 => 2,
            RamExtTableColumn::BezoutCoefficient1 => 3,
            RamExtTableColumn::RunningProductPermArg => 4,
            RamExtTableColumn::ClockJumpDifferenceLookupClientLogDerivative => 5,
        }
    }

    fn ext_table_index(&self) -> (r: usize) {
        *self as usize
    }

    fn master_ext_table_index(&self) -> (r: usize) {
        proof {
            lemma_ext_table_starts();
        }
        EXT_RAM_TABLE_START + self.ext_table_index()
    }
}

#[derive(Debug, Clone, Copy, PartialEq, Eq, Hash, Structural)]
pub enum JumpStackBaseTableColumn {
    CLK,
    CI,
    JSP,
    JSO,
    JSD,
}

impl JumpStackBaseTableColumn {
    /// All columns of the table, in enumeration order.
    pub open spec fn spec_columns() -> Seq<Self> {
        seq![
            JumpStackBaseTableColumn::CLK,
            JumpStackBaseTableColumn::CI,
            JumpStackBaseTableColumn::JSP,
            JumpStackBaseTableColumn::JSO,
            JumpStackBaseTableColumn::JSD,
        ]
    }

    /// All columns of the table, in enumeration order.
    pub fn columns() -> (r: Vec<Self>)
        ensures
            r@ == Self::spec_columns(),
    {
        let r = vec![
            JumpStackBaseTableColumn::CLK,
            JumpStackBaseTableColumn::CI,
            JumpStackBaseTableColumn::JSP,
            JumpStackBaseTableColumn::JSO,
            JumpStackBaseTableColumn::JSD,
        ];
        assert(r@ =~= Self::spec_columns());
        r
    }
}

impl MasterBaseTableColumn for JumpStackBaseTableColumn {
    open spec fn spec_table(&self) -> TableId {
        TableId::JumpStack
    }

    open spec fn spec_base_table_index(&self) -> nat {
        match self {
            JumpStackBaseTableColumn::CLK => 0,
            JumpStackBaseTableColumn::CI => 1,
            JumpStackBaseTableColumn::JSP => 2,
            JumpStackBaseTableColumn::JSO => 3,
            JumpStackBaseTableColumn::JSD => 4,
        }
    }

    fn base_table_index(&self) -> (r: usize) {
        *self as usize
    }

    fn master_base_table_index(&self) -> (r: usize) {
        proof {
            lemma_base_table_starts();
        }
        JUMP_STACK_TABLE_START + self.base_table_index()
    }
}

#[derive(Debug, Clone, Copy, PartialEq, Eq, Hash, Structural)]
pub enum JumpStackExtTableColumn {
    RunningProductPermArg,
    /// The (running sum of the) logarithmic derivative for the clock jump difference Lookup
    /// Argument with the Processor Table.
    ClockJumpDifferenceLookupClientLogDerivative,
}

impl JumpStackExtTableColumn {
    /// All columns of the table, in enumeration order.
    pub open spec fn spec_columns() -> Seq<Self> {
        seq![
            JumpStackExtTableColumn::RunningProductPermArg,
            JumpStackExtTableColumn::ClockJumpDifferenceLookupClientLogDerivative,
        ]
    }

    /// All columns of the table, in enumeration order.
    pub fn columns() -> (r: Vec<Self>)
        ensures
            r@ == Self::spec_columns(),
    {
        let r = vec![
            JumpStackExtTableColumn::RunningProductPermArg,
            JumpStackExtTableColumn::ClockJumpDifferenceLookupClientLogDerivative,
        ];
        assert(r@ =~= Self::spec_columns());
        r
    }
}

impl MasterExtTableColumn for JumpStackExtTableColumn {
    open spec fn spec_table(&self) -> TableId {
        TableId::JumpStack
    }

    open spec fn spec_ext_table_index(&self) -> nat {
        match self {
            JumpStackExtTableColumn::RunningProductPermArg => 0,
            JumpStackExtTableColumn::ClockJumpDifferenceLookupClientLogDerivative => 1,
        }
    }

    fn ext_table_index(&self) -> (r: usize) {
        *self as usize
    }

    fn master_ext_table_index(&self) -> (r: usize) {
        proof {
            lemma_ext_table_starts();
        }
        EXT_JUMP_STACK_TABLE_START + self.ext_table_index()
    }
}

#[derive(Debug, Clone, Copy, PartialEq, Eq, Hash, Structural)]
pub enum HashBaseTableColumn {
    /// The indicator for the `HashTableMode`.
    Mode,
    /// The current instruction. Only relevant for `Mode` `Sponge`
    /// in order to distinguish between the different Sponge instructions.
    CI,
    /// The number of the current round in the permutation. The round number evolves as
    /// - 0 → 1 → 2 → 3 → 4 → 5 (→ 0) in `Mode`s
    ///   `ProgramHashing`, `Sponge` and `Hash`,
    /// - 0 → 0 in `Mode` `Sponge` if the current instruction `CI` is
    ///   `sponge_init`, as an exception to above rule, and
    /// - 0 → 0 in `Mode` `Pad`.
    RoundNumber,
    State0HighestLkIn,
    State0MidHighLkIn,
    State0MidLowLkIn,
    State0LowestLkIn,
    State1HighestLkIn,
    State1MidHighLkIn,
    State1MidLowLkIn,
    State1LowestLkIn,
    State2HighestLkIn,
    State2MidHighLkIn,
    State2MidLowLkIn,
    State2LowestLkIn,
    State3HighestLkIn,
    State3MidHighLkIn,
    State3MidLowLkIn,
    State3LowestLkIn,
    State0HighestLkOut,
    State0MidHighLkOut,
    State0MidLowLkOut,
    State0LowestLkOut,
    State1HighestLkOut,
    State1MidHighLkOut,
    State1MidLowLkOut,
    State1LowestLkOut,
    State2HighestLkOut,
    State2MidHighLkOut,
    State2MidLowLkOut,
    State2LowestLkOut,
    State3HighestLkOut,
    State3MidHighLkOut,
    State3MidLowLkOut,
    State3LowestLkOut,
    State4,
    State5,
    State6,
    State7,
    State8,
    State9,
    State10,
    State11,
    State12,
    State13,
    State14,
    State15,
    State0Inv,
    State1Inv,
    State2Inv,
    State3Inv,
    Constant0,
    Constant1,
    Constant2,
    Constant3,
    Constant4,
    Constant5,
    Constant6,
    Constant7,
    Constant8,
    Constant9,
    Constant10,
    Constant11,
    Constant12,
    Constant13,
    Constant14,
    Constant15,
}

impl HashBaseTableColumn {
    /// All columns of the table, in enumeration order.
    pub open spec fn spec_columns() -> Seq<Self> {
        seq![
            HashBaseTableColumn::Mode,
            HashBaseTableColumn::CI,
            HashBaseTableColumn::RoundNumber,
            HashBaseTableColumn::State0HighestLkIn,
            HashBaseTableColumn::State0MidHighLkIn,
            HashBaseTableColumn::State0MidLowLkIn,
            HashBaseTableColumn::State0LowestLkIn,
            HashBaseTableColumn::State1HighestLkIn,
            HashBaseTableColumn::State1MidHighLkIn,
            HashBaseTableColumn::State1MidLowLkIn,
            HashBaseTableColumn::State1LowestLkIn,
            HashBaseTableColumn::State2HighestLkIn,
            HashBaseTableColumn::State2MidHighLkIn,
            HashBaseTableColumn::State2MidLowLkIn,
            HashBaseTableColumn::State2LowestLkIn,
            HashBaseTableColumn::State3HighestLkIn,
            HashBaseTableColumn::State3MidHighLkIn,
            HashBaseTableColumn::State3MidLowLkIn,
            HashBaseTableColumn::State3LowestLkIn,
            HashBaseTableColumn::State0HighestLkOut,
            HashBaseTableColumn::State0MidHighLkOut,
            HashBaseTableColumn::State0MidLowLkOut,
            HashBaseTableColumn::State0LowestLkOut,
            HashBaseTableColumn::State1HighestLkOut,
            HashBaseTableColumn::State1MidHighLkOut,
            HashBaseTableColumn::State1MidLowLkOut,
            HashBaseTableColumn::State1LowestLkOut,
            HashBaseTableColumn::State2HighestLkOut,
            HashBaseTableColumn::State2MidHighLkOut,
            HashBaseTableColumn::State2MidLowLkOut,
            HashBaseTableColumn::State2LowestLkOut,
            HashBaseTableColumn::State3HighestLkOut,
            HashBaseTableColumn::State3MidHighLkOut,
            HashBaseTableColumn::State3MidLowLkOut,
            HashBaseTableColumn::State3LowestLkOut,
            HashBaseTableColumn::State4,
            HashBaseTableColumn::State5,
            HashBaseTableColumn::State6,
            HashBaseTableColumn::State7,
            HashBaseTableColumn::State8,
            HashBaseTableColumn::State9,
            HashBaseTableColumn::State10,
            HashBaseTableColumn::State11,
            HashBaseTableColumn::State12,
            HashBaseTableColumn::State13,
            HashBaseTableColumn::State14,
            HashBaseTableColumn::State15,
            HashBaseTableColumn::State0Inv,
            HashBaseTableColumn::State1Inv,
            HashBaseTableColumn::State2Inv,
            HashBaseTableColumn::State3Inv,
            HashBaseTableColumn::Constant0,
            HashBaseTableColumn::Constant1,
            HashBaseTableColumn::Constant2,
            HashBaseTableColumn::Constant3,
            HashBaseTableColumn::Constant4,
            HashBaseTableColumn::Constant5,
            HashBaseTableColumn::Constant6,
            HashBaseTableColumn::Constant7,
            HashBaseTableColumn::Constant8,
            HashBaseTableColumn::Constant9,
            HashBaseTableColumn::Constant10,
            HashBaseTableColumn::Constant11,
            HashBaseTableColumn::Constant12,
            HashBaseTableColumn::Constant13,
            HashBaseTableColumn::Constant14,
            HashBaseTableColumn::Constant15,
        ]
    }

    /// All columns of the table, in enumeration order.
    pub fn columns() -> (r: Vec<Self>)
        ensures
            r@ == Self::spec_columns(),
    {
        let r = vec![
            HashBaseTableColumn::Mode,
            HashBaseTableColumn::CI,
            HashBaseTableColumn::RoundNumber,
            HashBaseTableColumn::State0HighestLkIn,
            HashBaseTableColumn::State0MidHighLkIn,
            HashBaseTableColumn::State0MidLowLkIn,
            HashBaseTableColumn::State0LowestLkIn,
            HashBaseTableColumn::State1HighestLkIn,
            HashBaseTableColumn::State1MidHighLkIn,
            HashBaseTableColumn::State1MidLowLkIn,
            HashBaseTableColumn::State1LowestLkIn,
            HashBaseTableColumn::State2HighestLkIn,
            HashBaseTableColumn::State2MidHighLkIn,
            HashBaseTableColumn::State2MidLowLkIn,
            HashBaseTableColumn::State2LowestLkIn,
            HashBaseTableColumn::State3HighestLkIn,
            HashBaseTableColumn::State3MidHighLkIn,
            HashBaseTableColumn::State3MidLowLkIn,
            HashBaseTableColumn::State3LowestLkIn,
            HashBaseTableColumn::State0HighestLkOut,
            HashBaseTableColumn::State0MidHighLkOut,
            HashBaseTableColumn::State0MidLowLkOut,
            HashBaseTableColumn::State0LowestLkOut,
            HashBaseTableColumn::State1HighestLkOut,
            HashBaseTableColumn::State1MidHighLkOut,
            HashBaseTableColumn::State1MidLowLkOut,
            HashBaseTableColumn::State1LowestLkOut,
            HashBaseTableColumn::State2HighestLkOut,
            HashBaseTableColumn::State2MidHighLkOut,
            HashBaseTableColumn::State2MidLowLkOut,
            HashBaseTableColumn::State2LowestLkOut,
            HashBaseTableColumn::State3HighestLkOut,
            HashBaseTableColumn::State3MidHighLkOut,
            HashBaseTableColumn::State3MidLowLkOut,
            HashBaseTableColumn::State3LowestLkOut,
            HashBaseTableColumn::State4,
            HashBaseTableColumn::State5,
            HashBaseTableColumn::State6,
            HashBaseTableColumn::State7,
            HashBaseTableColumn::State8,
            HashBaseTableColumn::State9,
            HashBaseTableColumn::State10,
            HashBaseTableColumn::State11,
            HashBaseTableColumn::State12,
            HashBaseTableColumn::State13,
            HashBaseTableColumn::State14,
            HashBaseTableColumn::State15,
            HashBaseTableColumn::State0Inv,
            HashBaseTableColumn::State1Inv,
            HashBaseTableColumn::State2Inv,
            HashBaseTableColumn::State3Inv,
            HashBaseTableColumn::Constant0,
            HashBaseTableColumn::Constant1,
            HashBaseTableColumn::Constant2,
            HashBaseTableColumn::Constant3,
            HashBaseTableColumn::Constant4,
            HashBaseTableColumn::Constant5,
            HashBaseTableColumn::Constant6,
            HashBaseTableColumn::Constant7,
            HashBaseTableColumn::Constant8,
            HashBaseTableColumn::Constant9,
            HashBaseTableColumn::Constant10,
            HashBaseTableColumn::Constant11,
            HashBaseTableColumn::Constant12,
            HashBaseTableColumn::Constant13,
            HashBaseTableColumn::Constant14,
            HashBaseTableColumn::Constant15,
        ];
        assert(r@ =~= Self::spec_columns());
        r
    }
}

impl MasterBaseTableColumn for HashBaseTableColumn {
    open spec fn spec_table(&self) -> TableId {
        TableId::Hash
    }

    open spec fn spec_base_table_index(&self) -> nat {
        match self {
            HashBaseTableColumn::Mode => 0,
            HashBaseTableColumn::CI => 1,
            HashBaseTableColumn::RoundNumber => 2,
            HashBaseTableColumn::State0HighestLkIn => 3,
            HashBaseTableColumn::State0MidHighLkIn => 4,
            HashBaseTableColumn::State0MidLowLkIn => 5,
            HashBaseTableColumn::State0LowestLkIn => 6,
            HashBaseTableColumn::State1HighestLkIn => 7,
            HashBaseTableColumn::State1MidHighLkIn => 8,
            HashBaseTableColumn::State1MidLowLkIn => 9,
            HashBaseTableColumn::State1LowestLkIn => 10,
            HashBaseTableColumn::State2HighestLkIn => 11,
            HashBaseTableColumn::State2MidHighLkIn => 12,
            HashBaseTableColumn::State2MidLowLkIn => 13,
            HashBaseTableColumn::State2LowestLkIn => 14,
            HashBaseTableColumn::State3HighestLkIn => 15,
            HashBaseTableColumn::State3MidHighLkIn => 16,
            HashBaseTableColumn::State3MidLowLkIn => 17,
            HashBaseTableColumn::State3LowestLkIn => 18,
            HashBaseTableColumn::State0HighestLkOut => 19,
            HashBaseTableColumn::State0MidHighLkOut => 20,
            HashBaseTableColumn::State0MidLowLkOut => 21,
            HashBaseTableColumn::State0LowestLkOut => 22,
            HashBaseTableColumn::State1HighestLkOut => 23,
            HashBaseTableColumn::State1MidHighLkOut => 24,
            HashBaseTableColumn::State1MidLowLkOut => 25,
            HashBaseTableColumn::State1LowestLkOut => 26,
            HashBaseTableColumn::State2HighestLkOut => 27,
            HashBaseTableColumn::State2MidHighLkOut => 28,
            HashBaseTableColumn::State2MidLowLkOut => 29,
            HashBaseTableColumn::State2LowestLkOut => 30,
            HashBaseTableColumn::State3HighestLkOut => 31,
            HashBaseTableColumn::State3MidHighLkOut => 32,
            HashBaseTableColumn::State3MidLowLkOut => 33,
            HashBaseTableColumn::State3LowestLkOut => 34,
            HashBaseTableColumn::State4 => 35,
            HashBaseTableColumn::State5 => 36,
            HashBaseTableColumn::State6 => 37,
            HashBaseTableColumn::State7 => 38,
            HashBaseTableColumn::State8 => 39,
            HashBaseTableColumn::State9 => 40,
            HashBaseTableColumn::State10 => 41,
            HashBaseTableColumn::State11 => 42,
            HashBaseTableColumn::State12 => 43,
            HashBaseTableColumn::State13 => 44,
            HashBaseTableColumn::State14 => 45,
            HashBaseTableColumn::State15 => 46,
            HashBaseTableColumn::State0Inv => 47,
            HashBaseTableColumn::State1Inv => 48,
            HashBaseTableColumn::State2Inv => 49,
            HashBaseTableColumn::State3Inv => 50,
            HashBaseTableColumn::Constant0 => 51,
            HashBaseTableColumn::Constant1 => 52,
            HashBaseTableColumn::Constant2 => 53,
            HashBaseTableColumn::Constant3 => 54,
            HashBaseTableColumn::Constant4 => 55,
            HashBaseTableColumn::Constant5 => 56,
            HashBaseTableColumn::Constant6 => 57,
            HashBaseTableColumn::Constant7 => 58,
            HashBaseTableColumn::Constant8 => 59,
            HashBaseTableColumn::Constant9 => 60,
            HashBaseTableColumn::Constant10 => 61,
            HashBaseTableColumn::Constant11 => 62,
            HashBaseTableColumn::Constant12 => 63,
            HashBaseTableColumn::Constant13 => 64,
            HashBaseTableColumn::Constant14 => 65,
            HashBaseTableColumn::Constant15 => 66,
        }
    }

    fn base_table_index(&self) -> (r: usize) {
        *self as usize
    }

    fn master_base_table_index(&self) -> (r: usize) {
        proof {
            lemma_base_table_starts();
        }
        HASH_TABLE_START + self.base_table_index()
    }
}

#[derive(Debug, Clone, Copy, PartialEq, Eq, Hash, Structural)]
pub enum HashExtTableColumn {
    /// The evaluation argument corresponding to receiving instructions in chunks of size
    /// `RATE`. The chunks are hashed in Sponge mode.
    /// This allows program attestation.
    ///
    /// The counterpart to `SendChunkEvalArg`.
    ReceiveChunkRunningEvaluation,
    HashInputRunningEvaluation,
    HashDigestRunningEvaluation,
    SpongeRunningEvaluation,
    CascadeState0HighestClientLogDerivative,
    CascadeState0MidHighClientLogDerivative,
    CascadeState0MidLowClientLogDerivative,
    CascadeState0LowestClientLogDerivative,
    CascadeState1HighestClientLogDerivative,
    CascadeState1MidHighClientLogDerivative,
    CascadeState1MidLowClientLogDerivative,
    CascadeState1LowestClientLogDerivative,
    CascadeState2HighestClientLogDerivative,
    CascadeState2MidHighClientLogDerivative,
    CascadeState2MidLowClientLogDerivative,
    CascadeState2LowestClientLogDerivative,
    CascadeState3HighestClientLogDerivative,
    CascadeState3MidHighClientLogDerivative,
    CascadeState3MidLowClientLogDerivative,
    CascadeState3LowestClientLogDerivative,
}

impl HashExtTableColumn {
    /// All columns of the table, in enumeration order.
    pub open spec fn spec_columns() -> Seq<Self> {
        seq![
            HashExtTableColumn::ReceiveChunkRunningEvaluation,
            HashExtTableColumn::HashInputRunningEvaluation,
            HashExtTableColumn::HashDigestRunningEvaluation,
            HashExtTableColumn::SpongeRunningEvaluation,
            HashExtTableColumn::CascadeState0HighestClientLogDerivative,
            HashExtTableColumn::CascadeState0MidHighClientLogDerivative,
            HashExtTableColumn::CascadeState0MidLowClientLogDerivative,
            HashExtTableColumn::CascadeState0LowestClientLogDerivative,
            HashExtTableColumn::CascadeState1HighestClientLogDerivative,
            HashExtTableColumn::CascadeState1MidHighClientLogDerivative,
            HashExtTableColumn::CascadeState1MidLowClientLogDerivative,
            HashExtTableColumn::CascadeState1LowestClientLogDerivative,
            HashExtTableColumn::CascadeState2HighestClientLogDerivative,
            HashExtTableColumn::CascadeState2MidHighClientLogDerivative,
            HashExtTableColumn::CascadeState2MidLowClientLogDerivative,
            HashExtTableColumn::CascadeState2LowestClientLogDerivative,
            HashExtTableColumn::CascadeState3HighestClientLogDerivative,
            HashExtTableColumn::CascadeState3MidHighClientLogDerivative,
            HashExtTableColumn::CascadeState3MidLowClientLogDerivative,
            HashExtTableColumn::CascadeState3LowestClientLogDerivative,
        ]
    }

    /// All columns of the table, in enumeration order.
    pub fn columns() -> (r: Vec<Self>)
        ensures
            r@ == Self::spec_columns(),
    {
        let r = vec![
            HashExtTableColumn::ReceiveChunkRunningEvaluation,
            HashExtTableColumn::HashInputRunningEvaluation,
            HashExtTableColumn::HashDigestRunningEvaluation,
            HashExtTableColumn::SpongeRunningEvaluation,
            HashExtTableColumn::CascadeState0HighestClientLogDerivative,
            HashExtTableColumn::CascadeState0MidHighClientLogDerivative,
            HashExtTableColumn::CascadeState0MidLowClientLogDerivative,
            HashExtTableColumn::CascadeState0LowestClientLogDerivative,
            HashExtTableColumn::CascadeState1HighestClientLogDerivative,
            HashExtTableColumn::CascadeState1MidHighClientLogDerivative,
            HashExtTableColumn::CascadeState1MidLowClientLogDerivative,
            HashExtTableColumn::CascadeState1LowestClientLogDerivative,
            HashExtTableColumn::CascadeState2HighestClientLogDerivative,
            HashExtTableColumn::CascadeState2MidHighClientLogDerivative,
            HashExtTableColumn::CascadeState2MidLowClientLogDerivative,
            HashExtTableColumn::CascadeState2LowestClientLogDerivative,
            HashExtTableColumn::CascadeState3HighestClientLogDerivative,
            HashExtTableColumn::CascadeState3MidHighClientLogDerivative,
            HashExtTableColumn::CascadeState3MidLowClientLogDerivative,
            HashExtTableColumn::CascadeState3LowestClientLogDerivative,
        ];
        assert(r@ =~= Self::spec_columns());
        r
    }
}

impl MasterExtTableColumn for HashExtTableColumn {
    open spec fn spec_table(&self) -> TableId {
        TableId::Hash
    }

    open spec fn spec_ext_table_index(&self) -> nat {
        match self {
            HashExtTableColumn::ReceiveChunkRunningEvaluation => 0,
            HashExtTableColumn::HashInputRunningEvaluation => 1,
            HashExtTableColumn::HashDigestRunningEvaluation => 2,
            HashExtTableColumn::SpongeRunningEvaluation => 3,
            HashExtTableColumn::CascadeState0HighestClientLogDerivative => 4,
            HashExtTableColumn::CascadeState0MidHighClientLogDerivative => 5,
            HashExtTableColumn::CascadeState0MidLowClientLogDerivative => 6,
            HashExtTableColumn::CascadeState0LowestClientLogDerivative => 7,
            HashExtTableColumn::CascadeState1HighestClientLogDerivative => 8,
            HashExtTableColumn::CascadeState1MidHighClientLogDerivative => 9,
            HashExtTableColumn::CascadeState1MidLowClientLogDerivative => 10,
            HashExtTableColumn::CascadeState1LowestClientLogDerivative => 11,
            HashExtTableColumn::CascadeState2HighestClientLogDerivative => 12,
            HashExtTableColumn::CascadeState2MidHighClientLogDerivative => 13,
            HashExtTableColumn::CascadeState2MidLowClientLogDerivative => 14,
            HashExtTableColumn::CascadeState2LowestClientLogDerivative => 15,
            HashExtTableColumn::CascadeState3HighestClientLogDerivative => 16,
            HashExtTableColumn::CascadeState3MidHighClientLogDerivative => 17,
            HashExtTableColumn::CascadeState3MidLowClientLogDerivative => 18,
            HashExtTableColumn::CascadeState3LowestClientLogDerivative => 19,
        }
    }

    fn ext_table_index(&self) -> (r: usize) {
        *self as usize
    }

    fn master_ext_table_index(&self) -> (r: usize) {
        proof {
            lemma_ext_table_starts();
        }
        EXT_HASH_TABLE_START + self.ext_table_index()
    }
}

#[derive(Debug, Clone, Copy, PartialEq, Eq, Hash, Structural)]
pub enum CascadeBaseTableColumn {
    /// Indicator for padding rows.
    IsPadding,
    /// The more significant bits of the lookup input.
    LookInHi,
    /// The less significant bits of the lookup input.
    LookInLo,
    /// The more significant bits of the lookup output.
    LookOutHi,
    /// The less significant bits of the lookup output.
    LookOutLo,
    /// The number of times the S-Box is evaluated, _i.e._, the value is looked up.
    LookupMultiplicity,
}

impl CascadeBaseTableColumn {
    /// All columns of the table, in enumeration order.
    pub open spec fn spec_columns() -> Seq<Self> {
        seq![
            CascadeBaseTableColumn::IsPadding,
            CascadeBaseTableColumn::LookInHi,
            CascadeBaseTableColumn::LookInLo,
            CascadeBaseTableColumn::LookOutHi,
            CascadeBaseTableColumn::LookOutLo,
            CascadeBaseTableColumn::LookupMultiplicity,
        ]
    }

    /// All columns of the table, in enumeration order.
    pub fn columns() -> (r: Vec<Self>)
        ensures
            r@ == Self::spec_columns(),
    {
        let r = vec![
            CascadeBaseTableColumn::IsPadding,
            CascadeBaseTableColumn::LookInHi,
            CascadeBaseTableColumn::LookInLo,
            CascadeBaseTableColumn::LookOutHi,
            CascadeBaseTableColumn::LookOutLo,
            CascadeBaseTableColumn::LookupMultiplicity,
        ];
        assert(r@ =~= Self::spec_columns());
        r
    }
}

impl MasterBaseTableColumn for CascadeBaseTableColumn {
    open spec fn spec_table(&self) -> TableId {
        TableId::Cascade
    }

    open spec fn spec_base_table_index(&self) -> nat {
        match self {
            CascadeBaseTableColumn::IsPadding => 0,
            CascadeBaseTableColumn::LookInHi => 1,
            CascadeBaseTableColumn::LookInLo => 2,
            CascadeBaseTableColumn::LookOutHi => 3,
            CascadeBaseTableColumn::LookOutLo => 4,
            CascadeBaseTableColumn::LookupMultiplicity => 5,
        }
    }

    fn base_table_index(&self) -> (r: usize) {
        *self as usize
    }

    fn master_base_table_index(&self) -> (r: usize) {
        proof {
            lemma_base_table_starts();
        }
        CASCADE_TABLE_START + self.base_table_index()
    }
}

#[derive(Debug, Clone, Copy, PartialEq, Eq, Hash, Structural)]
pub enum CascadeExtTableColumn {
    /// The (running sum of the) logarithmic derivative for the Lookup Argument with the Hash Table.
    /// In every row, the sum accumulates `LookupMultiplicity / (X - Combo)` where `X` is a
    /// verifier-supplied challenge and `Combo` is the weighted sum of
    /// - `2^8·LookInHi + LookInLo`, and
    /// - `2^8·LookOutHi + LookOutLo`
    ///   with weights supplied by the verifier.
    HashTableServerLogDerivative,
    /// The (running sum of the) logarithmic derivative for the Lookup Argument with the Lookup
    /// Table. In every row, accumulates the two summands
    /// - `1 / combo_hi` where `combo_hi` is the verifier-weighted combination of `LookInHi` and
    ///   `LookOutHi`, and
    /// - `1 / combo_lo` where `combo_lo` is the verifier-weighted combination of `LookInLo` and
    ///   `LookOutLo`.
    LookupTableClientLogDerivative,
}

impl CascadeExtTableColumn {
    /// All columns of the table, in enumeration order.
    pub open spec fn spec_columns() -> Seq<Self> {
        seq![
            CascadeExtTableColumn::HashTableServerLogDerivative,
            CascadeExtTableColumn::LookupTableClientLogDerivative,
        ]
    }

    /// All columns of the table, in enumeration order.
    pub fn columns() -> (r: Vec<Self>)
        ensures
            r@ == Self::spec_columns(),
    {
        let r = vec![
            CascadeExtTableColumn::HashTableServerLogDerivative,
            CascadeExtTableColumn::LookupTableClientLogDerivative,
        ];
        assert(r@ =~= Self::spec_columns());
        r
    }
}

impl MasterExtTableColumn for CascadeExtTableColumn {
    open spec fn spec_table(&self) -> TableId {
        TableId::Cascade
    }

    open spec fn spec_ext_table_index(&self) -> nat {
        match self {
            CascadeExtTableColumn::HashTableServerLogDerivative => 0,
            CascadeExtTableColumn::LookupTableClientLogDerivative => 1,
        }
    }

    fn ext_table_index(&self) -> (r: usize) {
        *self as usize
    }

    fn master_ext_table_index(&self) -> (r: usize) {
        proof {
            lemma_ext_table_starts();
        }
        EXT_CASCADE_TABLE_START + self.ext_table_index()
    }
}

#[derive(Debug, Clone, Copy, PartialEq, Eq, Hash, Structural)]
pub enum LookupBaseTableColumn {
    /// Indicator for padding rows.
    IsPadding,
    /// The lookup input.
    LookIn,
    /// The lookup output.
    LookOut,
    /// The number of times the value is looked up.
    LookupMultiplicity,
}

impl LookupBaseTableColumn {
    /// All columns of the table, in enumeration order.
    pub open spec fn spec_columns() -> Seq<Self> {
        seq![
            LookupBaseTableColumn::IsPadding,
            LookupBaseTableColumn::LookIn,
            LookupBaseTableColumn::LookOut,
            LookupBaseTableColumn::LookupMultiplicity,
        ]
    }

    /// All columns of the table, in enumeration order.
    pub fn columns() -> (r: Vec<Self>)
        ensures
            r@ == Self::spec_columns(),
    {
        let r = vec![
            LookupBaseTableColumn::IsPadding,
            LookupBaseTableColumn::LookIn,
            LookupBaseTableColumn::LookOut,
            LookupBaseTableColumn::LookupMultiplicity,
        ];
        assert(r@ =~= Self::spec_columns());
        r
    }
}

impl MasterBaseTableColumn for LookupBaseTableColumn {
    open spec fn spec_table(&self) -> TableId {
        TableId::Lookup
    }

    open spec fn spec_base_table_index(&self) -> nat {
        match self {
            LookupBaseTableColumn::IsPadding => 0,
            LookupBaseTableColumn::LookIn => 1,
            LookupBaseTableColumn::LookOut => 2,
            LookupBaseTableColumn::LookupMultiplicity => 3,
        }
    }

    fn base_table_index(&self) -> (r: usize) {
        *self as usize
    }

    fn master_base_table_index(&self) -> (r: usize) {
        proof {
            lemma_base_table_starts();
        }
        LOOKUP_TABLE_START + self.base_table_index()
    }
}

#[derive(Debug, Clone, Copy, PartialEq, Eq, Hash, Structural)]
pub enum LookupExtTableColumn {
    /// The (running sum of the) logarithmic derivative for the Lookup Argument with the Cascade
    /// Table. In every row, accumulates the summand `LookupMultiplicity / Combo` where `Combo` is
    /// the verifier-weighted combination of `LookIn` and `LookOut`.
    CascadeTableServerLogDerivative,
    /// The running sum for the public evaluation argument of the Lookup Table.
    /// In every row, accumulates `LookOut`.
    PublicEvaluationArgument,
}

impl LookupExtTableColumn {
    /// All columns of the table, in enumeration order.
    pub open spec fn spec_columns() -> Seq<Self> {
        seq![
            LookupExtTableColumn::CascadeTableServerLogDerivative,
            LookupExtTableColumn::PublicEvaluationArgument,
        ]
    }

    /// All columns of the table, in enumeration order.
    pub fn columns() -> (r: Vec<Self>)
        ensures
            r@ == Self::spec_columns(),
    {
        let r = vec![
            LookupExtTableColumn::CascadeTableServerLogDerivative,
            LookupExtTableColumn::PublicEvaluationArgument,
        ];
        assert(r@ =~= Self::spec_columns());
        r
    }
}

impl MasterExtTableColumn for LookupExtTableColumn {
    open spec fn spec_table(&self) -> TableId {
        TableId::Lookup
    }

    open spec fn spec_ext_table_index(&self) -> nat {
        match self {
            LookupExtTableColumn::CascadeTableServerLogDerivative => 0,
            LookupExtTableColumn::PublicEvaluationArgument => 1,
        }
    }

    fn ext_table_index(&self) -> (r: usize) {
        *self as usize
    }

    fn master_ext_table_index(&self) -> (r: usize) {
        proof {
            lemma_ext_table_starts();
        }
        EXT_LOOKUP_TABLE_START + self.ext_table_index()
    }
}

#[derive(Debug, Clone, Copy, PartialEq, Eq, Hash, Structural)]
pub enum U32BaseTableColumn {
    /// Marks the beginning of an independent section within the U32 table.
    CopyFlag,
    /// The number of bits that LHS and RHS have already been shifted by.
    Bits,
    /// The inverse-or-zero of the difference between
    /// 1. the first disallowed number of bits to shift LHS and RHS by, _i.e.,_ 33, and
    /// 2. the number of bits that LHS and RHS have already been shifted by.
    BitsMinus33Inv,
    /// Current Instruction, the instruction the processor is currently executing.
    CI,
    /// Left-hand side of the operation.
    LHS,
    /// The inverse-or-zero of LHS. Needed to check whether `LHS` is unequal to 0.
    LhsInv,
    /// Right-hand side of the operation.
    RHS,
    /// The inverse-or-zero of RHS. Needed to check whether `RHS` is unequal to 0.
    RhsInv,
    /// The result (or intermediate result) of the instruction requested by the processor.
    Result,
    /// The number of times the processor has executed the current instruction with the same
    /// arguments.
    LookupMultiplicity,
}

impl U32BaseTableColumn {
    /// All columns of the table, in enumeration order.
    pub open spec fn spec_columns() -> Seq<Self> {
        seq![
            U32BaseTableColumn::CopyFlag,
            U32BaseTableColumn::Bits,
            U32BaseTableColumn::BitsMinus33Inv,
            U32BaseTableColumn::CI,
            U32BaseTableColumn::LHS,
            U32BaseTableColumn::LhsInv,
            U32BaseTableColumn::RHS,
            U32BaseTableColumn::RhsInv,
            U32BaseTableColumn::Result,
            U32BaseTableColumn::LookupMultiplicity,
        ]
    }

    /// All columns of the table, in enumeration order.
    pub fn columns() -> (r: Vec<Self>)
        ensures
            r@ == Self::spec_columns(),
    {
        let r = vec![
            U32BaseTableColumn::CopyFlag,
            U32BaseTableColumn::Bits,
            U32BaseTableColumn::BitsMinus33Inv,
            U32BaseTableColumn::CI,
            U32BaseTableColumn::LHS,
            U32BaseTableColumn::LhsInv,
            U32BaseTableColumn::RHS,
            U32BaseTableColumn::RhsInv,
            U32BaseTableColumn::Result,
            U32BaseTableColumn::LookupMultiplicity,
        ];
        assert(r@ =~= Self::spec_columns());
        r
    }
}

impl MasterBaseTableColumn for U32BaseTableColumn {
    open spec fn spec_table(&self) -> TableId {
        TableId::U32
    }

    open spec fn spec_base_table_index(&self) -> nat {
        match self {
            U32BaseTableColumn::CopyFlag => 0,
            U32BaseTableColumn::Bits => 1,
            U32BaseTableColumn::BitsMinus33Inv => 2,
            U32BaseTableColumn::CI => 3,
            U32BaseTableColumn::LHS => 4,
            U32BaseTableColumn::LhsInv => 5,
            U32BaseTableColumn::RHS => 6,
            U32BaseTableColumn::RhsInv => 7,
            U32BaseTableColumn::Result => 8,
            U32BaseTableColumn::LookupMultiplicity => 9,
        }
    }

    fn base_table_index(&self) -> (r: usize) {
        *self as usize
    }

    fn master_base_table_index(&self) -> (r: usize) {
        proof {
            lemma_base_table_starts();
        }
        U32_TABLE_START + self.base_table_index()
    }
}

#[derive(Debug, Clone, Copy, PartialEq, Eq, Hash, Structural)]
pub enum U32ExtTableColumn {
    /// The (running sum of the) logarithmic derivative for the Lookup Argument with the
    /// Processor Table.
    LookupServerLogDerivative,
}

impl U32ExtTableColumn {
    /// All columns of the table, in enumeration order.
    pub open spec fn spec_columns() -> Seq<Self> {
        seq![
            U32ExtTableColumn::LookupServerLogDerivative,
        ]
    }

    /// All columns of the table, in enumeration order.
    pub fn columns() -> (r: Vec<Self>)
        ensures
            r@ == Self::spec_columns(),
    {
        let r = vec![
            U32ExtTableColumn::LookupServerLogDerivative,
        ];
        assert(r@ =~= Self::spec_columns());
        r
    }
}

impl MasterExtTableColumn for U32ExtTableColumn {
    open spec fn spec_table(&self) -> TableId {
        TableId::U32
    }

    open spec fn spec_ext_table_index(&self) -> nat {
        match self {
            U32ExtTableColumn::LookupServerLogDerivative => 0,
        }
    }

    fn ext_table_index(&self) -> (r: usize) {
        *self as usize
    }

    fn master_ext_table_index(&self) -> (r: usize) {
        proof {
            lemma_ext_table_starts();
        }
        EXT_U32_TABLE_START + self.ext_table_index()
    }
}

/// A column of the degree-lowering table's base part: the `index`-th base column that degree
/// lowering allocated.
#[derive(Debug, Clone, Copy, PartialEq, Eq, Hash, Structural)]
pub struct DegreeLoweringBaseTableColumn {
    pub index: u16,
}

impl DegreeLoweringBaseTableColumn {
    /// The first `n` columns of the table, in order.
    pub open spec fn spec_columns(n: nat) -> Seq<Self> {
        Seq::new(n, |i: int| DegreeLoweringBaseTableColumn { index: i as u16 })
    }

    /// The first `n` columns of the table, in order.
    pub fn columns(n: u16) -> (r: Vec<Self>)
        ensures
            r@ == Self::spec_columns(n as nat),
    {
        let mut r: Vec<Self> = Vec::new();
        let mut i: u16 = 0;
        while i < n
            invariant
                i <= n,
                r@ == Self::spec_columns(i as nat),
            decreases n - i,
        {
            r.push(DegreeLoweringBaseTableColumn { index: i });
            i = i + 1;
            assert(r@ =~= Self::spec_columns(i as nat));
        }
        r
    }
}

impl MasterBaseTableColumn for DegreeLoweringBaseTableColumn {
    open spec fn spec_table(&self) -> TableId {
        TableId::DegreeLowering
    }

    open spec fn spec_base_table_index(&self) -> nat {
        self.index as nat
    }

    fn base_table_index(&self) -> (r: usize) {
        self.index as usize
    }

    fn master_base_table_index(&self) -> (r: usize) {
        proof {
            lemma_base_table_starts();
        }
        DEGREE_LOWERING_TABLE_START + self.base_table_index()
    }
}

/// A column of the degree-lowering table's extension part: the `index`-th extension column that degree
/// lowering allocated.
#[derive(Debug, Clone, Copy, PartialEq, Eq, Hash, Structural)]
pub struct DegreeLoweringExtTableColumn {
    pub index: u16,
}

impl DegreeLoweringExtTableColumn {
    /// The first `n` columns of the table, in order.
    pub open spec fn spec_columns(n: nat) -> Seq<Self> {
        Seq::new(n, |i: int| DegreeLoweringExtTableColumn { index: i as u16 })
    }

    /// The first `n` columns of the table, in order.
    pub fn columns(n: u16) -> (r: Vec<Self>)
        ensures
            r@ == Self::spec_columns(n as nat),
    {
        let mut r: Vec<Self> = Vec::new();
        let mut i: u16 = 0;
        while i < n
            invariant
                i <= n,
                r@ == Self::spec_columns(i as nat),
            decreases n - i,
        {
            r.push(DegreeLoweringExtTableColumn { index: i });
            i = i + 1;
            assert(r@ =~= Self::spec_columns(i as nat));
        }
        r
    }
}

impl MasterExtTableColumn for DegreeLoweringExtTableColumn {
    open spec fn spec_table(&self) -> TableId {
        TableId::DegreeLowering
    }

    open spec fn spec_ext_table_index(&self) -> nat {
        self.index as nat
    }

    fn ext_table_index(&self) -> (r: usize) {
        self.index as usize
    }

    fn master_ext_table_index(&self) -> (r: usize) {
        proof {
            lemma_ext_table_starts();
        }
        EXT_DEGREE_LOWERING_TABLE_START + self.ext_table_index()
    }
}

/// Two adjacent index ranges make up the range that spans both.
pub proof fn lemma_index_ranges_concatenate(lo: nat, mid: nat, hi: nat)
    requires
        lo <= mid <= hi,
    ensures
        index_range(lo, mid) + index_range(mid, hi) == index_range(lo, hi),
{
    assert(index_range(lo, mid) + index_range(mid, hi) =~= index_range(lo, hi));
}

} // verus!
