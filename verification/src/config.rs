//! Register-table configuration of the Modbus bridge and its validation.

use crate::seq_facts::{lemma_take_ends, lemma_take_step};
use vstd::prelude::*;

verus! {

/// Data type that an alias gives to the register (or registers) it names.
#[derive(Clone, Copy, Debug, PartialEq, Eq, Structural)]
pub enum AliasType {
    Default,
    Boolean,
    Byte,
    SByte,
    UInt16,
    Int16,
    UInt32,
    Int32,
    UInt64,
    Int64,
    Float,
    Double,
}

impl AliasType {
    /// Number of 16-bit registers that a value of this type occupies.
    pub open spec fn words(self) -> int {
        match self {
            AliasType::UInt32 | AliasType::Int32 | AliasType::Float => 2,
            AliasType::UInt64 | AliasType::Int64 | AliasType::Double => 4,
            _ => 1,
        }
    }

    /// Whether a coil may carry this type: coils hold single bits.
    pub open spec fn fits_coil(self) -> bool {
        self == AliasType::Boolean || self == AliasType::Default
    }

    /// Returns the size of the type in number of registers.
    pub fn size_in_words(&self) -> (words: u16)
        ensures
            words == self.words(),
    {
        match self {
            AliasType::Default
            | AliasType::Boolean
            | AliasType::Byte
            | AliasType::SByte
            | AliasType::UInt16
            | AliasType::Int16 => 1,
            AliasType::UInt32 => 2,
            AliasType::Int32 => 2,
            AliasType::UInt64 => 4,
            AliasType::Int64 => 4,
            AliasType::Float => 2,
            AliasType::Double => 4,
        }
    }
}

/// The data type of an alias that names none.
pub fn default_as_u16() -> (data_type: AliasType)
    ensures
        data_type == AliasType::Default,
{
    AliasType::Default
}

/// The writability of an alias that states none.
pub fn default_as_false() -> (writable: bool)
    ensures
        !writable,
{
    false
}

/// One of the four Modbus tables.
#[derive(Clone, Copy, Debug, PartialEq, Eq, Structural)]
pub enum Table {
    /// Discrete output coils, numbers 0 to 9999.
    OutputCoils,
    /// Discrete input contacts, numbers 10001 to 19999.
    InputCoils,
    /// Analog input registers, numbers 30001 to 39999.
    InputRegisters,
    /// Analog output holding registers, numbers 40001 to 49999.
    OutputRegisters,
}

impl Table {
    /// The table that a register number addresses and the address inside it,
    /// or `None` for a number that lies in no table.
    pub open spec fn locate(number: u16) -> Option<(Table, u16)> {
        if number <= 9999 {
            Some((Table::OutputCoils, number))
        } else if 10001 <= number <= 19999 {
            Some((Table::InputCoils, (number - 10001) as u16))
        } else if 30001 <= number <= 39999 {
            Some((Table::InputRegisters, (number - 30001) as u16))
        } else if 40001 <= number <= 49999 {
            Some((Table::OutputRegisters, (number - 40001) as u16))
        } else {
            None
        }
    }

    /// Whether the table holds coils (single bits) rather than registers.
    pub open spec fn holds_coils(self) -> bool {
        self == Table::OutputCoils || self == Table::InputCoils
    }

    /// The largest register number that a value in this table may reach.
    pub open spec fn last_number(self) -> int {
        if self == Table::InputRegisters {
            39999
        } else {
            49999
        }
    }

    /// Splits a register number into its table and the address inside it.
    pub fn table_from_number(number: u16) -> (located: Option<(Table, u16)>)
        ensures
            located == Table::locate(number),
    {
        if number <= 9999 {
            Some((Table::OutputCoils, number))
        } else if number >= 10001 && number <= 19999 {
            Some((Table::InputCoils, number - 10001))
        } else if number >= 30001 && number <= 39999 {
            Some((Table::InputRegisters, number - 30001))
        } else if number >= 40001 && number <= 49999 {
            Some((Table::OutputRegisters, number - 40001))
        } else {
            None
        }
    }
}

/// A named register.
#[derive(Clone, Debug)]
pub struct Alias {
    pub name: String,
    pub number: u16,
    pub data_type: AliasType,
    pub writable: bool,
}

/// The window of one table that the bridge polls.
#[derive(Clone, Copy, Debug, PartialEq, Eq, Structural)]
pub struct TableConfig {
    pub base_address: u16,
    pub count: u16,
}

impl Default for TableConfig {
    fn default() -> (table: Self)
        ensures
            table.base_address == 0,
            table.count == 0,
    {
        Self { base_address: 0u16, count: 0u16 }
    }
}

impl TableConfig {
    /// The window starts below 9998 and ends at 9999 or before.
    pub open spec fn is_valid(self) -> bool {
        self.base_address < 9998 && self.base_address + self.count <= 9999
    }

    /// The address lies inside the window.
    pub open spec fn covers(self, addr: u16) -> bool {
        self.base_address <= addr < self.base_address + self.count
    }

    pub fn valid(&self) -> (ok: bool)
        ensures
            ok == self.is_valid(),
    {
        let end: u32 = self.base_address as u32 + self.count as u32;
        !(self.base_address >= 9998 || end > 9999)
    }

    pub fn in_range(&self, addr: u16) -> (inside: bool)
        ensures
            inside == self.covers(addr),
    {
        let end: u32 = self.base_address as u32 + self.count as u32;
        addr >= self.base_address && (addr as u32) < end
    }
}

/// One thing that is wrong with a configuration.
#[derive(Clone, Copy, Debug, PartialEq, Eq, Structural)]
pub enum ConfigProblem {
    /// No slave address is given.
    NoSlaveAddress,
    /// The window of the input coils is not valid.
    InputCoilsOutOfRange,
    /// The window of the output coils is not valid.
    OutputCoilsOutOfRange,
    /// The window of the input registers is not valid.
    InputRegistersOutOfRange,
    /// The window of the output registers is not valid.
    OutputRegistersOutOfRange,
    /// Two aliases share a name.
    DuplicateAliasNames,
    /// The alias at this position names a number that lies in no table.
    AliasInNoTable { alias: usize },
    /// The alias at this position names a register outside the configured
    /// window of its table.
    AliasOutOfRange { alias: usize },
    /// The alias at this position names a coil and is not typed as a bit.
    AliasCoilNotBoolean { alias: usize },
    /// The value of the alias at this position ends beyond its table.
    AliasExceedsTable { alias: usize },
}

/// The problem, if the condition holds, and nothing otherwise.
pub open spec fn when(condition: bool, problem: ConfigProblem) -> Seq<ConfigProblem> {
    if condition {
        seq![problem]
    } else {
        Seq::empty()
    }
}

/// Configuration of the bridge: where the Modbus slave lives, how often it
/// is read, which window of each table is polled and the names given to
/// single registers.
#[derive(Clone, Debug)]
pub struct Config {
    pub slave_address: String,
    pub read_interval: u32,
    pub input_coils: TableConfig,
    pub output_coils: TableConfig,
    pub input_registers: TableConfig,
    pub output_registers: TableConfig,
    pub aliases: Option<Vec<Alias>>,
}

/// No two aliases of the list share a name.
pub open spec fn names_distinct(aliases: Seq<Alias>) -> bool {
    forall|i: int, j: int| 0 <= i < j < aliases.len() ==> aliases[i].name@ != aliases[j].name@
}

/// Whether no alias before position `upto` has the name of the alias at `upto`.
fn name_is_new(aliases: &Vec<Alias>, upto: usize) -> (fresh: bool)
    requires
        upto < aliases.len(),
    ensures
        fresh == (forall|i: int| 0 <= i < upto ==> aliases[i].name@ != aliases[upto as int].name@),
{
    let mut i: usize = 0;
    while i < upto
        invariant
            i <= upto < aliases.len(),
            forall|k: int| 0 <= k < i ==> aliases[k].name@ != aliases[upto as int].name@,
        decreases upto - i,
    {
        if aliases[i].name == aliases[upto].name {
            return false;
        }
        i += 1;
    }
    true
}

/// Whether the names of the aliases are pairwise different.
pub fn names_are_distinct(aliases: &Vec<Alias>) -> (distinct: bool)
    ensures
        distinct == names_distinct(aliases@),
{
    let mut j: usize = 0;
    while j < aliases.len()
        invariant
            j <= aliases.len(),
            forall|a: int, b: int| 0 <= a < b < j ==> aliases[a].name@ != aliases[b].name@,
        decreases aliases.len() - j,
    {
        if !name_is_new(aliases, j) {
            return false;
        }
        j += 1;
    }
    true
}

/// Appends the problem to `found` if the condition holds.
fn note(found: &mut Vec<ConfigProblem>, condition: bool, problem: ConfigProblem)
    ensures
        final(found)@ == old(found)@ + when(condition, problem),
{
    if condition {
        found.push(problem);
    }
}

impl Config {
    /// The configured window of a table.
    pub open spec fn window(self, table: Table) -> TableConfig {
        match table {
            Table::OutputCoils => self.output_coils,
            Table::InputCoils => self.input_coils,
            Table::InputRegisters => self.input_registers,
            Table::OutputRegisters => self.output_registers,
        }
    }

    /// The alias names a number of some table, the number lies in the
    /// configured window of that table, a coil is typed as a bit, and a
    /// register value ends inside its table.
    pub open spec fn alias_fits(self, alias: Alias) -> bool {
        match Table::locate(alias.number) {
            None => false,
            Some((table, addr)) => {
                &&& self.window(table).covers(addr)
                &&& if table.holds_coils() {
                    alias.data_type.fits_coil()
                } else {
                    alias.number + alias.data_type.words() <= table.last_number()
                }
            },
        }
    }

    /// The configuration names a slave, its four windows are valid, and its
    /// aliases, if any, have pairwise different names and all fit.
    pub open spec fn is_valid(self) -> bool {
        &&& self.slave_address@.len() > 0
        &&& self.input_coils.is_valid()
        &&& self.output_coils.is_valid()
        &&& self.input_registers.is_valid()
        &&& self.output_registers.is_valid()
        &&& match self.aliases {
            None => true,
            Some(aliases) => {
                &&& names_distinct(aliases@)
                &&& forall|i: int| 0 <= i < aliases@.len() ==> self.alias_fits(#[trigger] aliases@[i])
            },
        }
    }

    /// What is wrong with the alias at position `at`, in the order in which
    /// it is checked: first whether its register is addressable, then its
    /// type.
    pub open spec fn alias_problems(self, alias: Alias, at: usize) -> Seq<ConfigProblem> {
        match Table::locate(alias.number) {
            None => seq![ConfigProblem::AliasInNoTable { alias: at }],
            Some((table, addr)) => when(
                !self.window(table).covers(addr),
                ConfigProblem::AliasOutOfRange { alias: at },
            ) + if table.holds_coils() {
                when(!alias.data_type.fits_coil(), ConfigProblem::AliasCoilNotBoolean { alias: at })
            } else {
                when(
                    alias.number + alias.data_type.words() > table.last_number(),
                    ConfigProblem::AliasExceedsTable { alias: at },
                )
            },
        }
    }

    /// What is wrong with the aliases of the list, first alias first.
    pub open spec fn aliases_problems(self, aliases: Seq<Alias>) -> Seq<ConfigProblem>
        decreases aliases.len(),
    {
        if aliases.len() == 0 {
            Seq::empty()
        } else {
            self.aliases_problems(aliases.drop_last()) + self.alias_problems(
                aliases.last(),
                (aliases.len() - 1) as usize,
            )
        }
    }

    /// What is wrong with the slave address and the four windows.
    pub open spec fn window_problems(self) -> Seq<ConfigProblem> {
        when(self.slave_address@.len() == 0, ConfigProblem::NoSlaveAddress) + when(
            !self.input_coils.is_valid(),
            ConfigProblem::InputCoilsOutOfRange,
        ) + when(!self.output_coils.is_valid(), ConfigProblem::OutputCoilsOutOfRange) + when(
            !self.input_registers.is_valid(),
            ConfigProblem::InputRegistersOutOfRange,
        ) + when(!self.output_registers.is_valid(), ConfigProblem::OutputRegistersOutOfRange)
    }

    /// Everything that is wrong with the configuration, in the order in which
    /// it is checked: the slave address, the four windows, the alias names,
    /// then alias after alias.
    pub open spec fn all_problems(self) -> Seq<ConfigProblem> {
        self.window_problems() + match self.aliases {
            None => Seq::empty(),
            Some(aliases) => when(!names_distinct(aliases@), ConfigProblem::DuplicateAliasNames)
                + self.aliases_problems(aliases@),
        }
    }

    /// The aliases of a list all fit if and only if nothing is wrong with
    /// any of them.
    pub proof fn lemma_aliases_fit_iff_no_problems(self, aliases: Seq<Alias>)
        requires
            aliases.len() <= usize::MAX,
        ensures
            (forall|i: int| 0 <= i < aliases.len() ==> self.alias_fits(#[trigger] aliases[i]))
                <==> self.aliases_problems(aliases).len() == 0,
        decreases aliases.len(),
    {
        if aliases.len() > 0 {
            let front = aliases.drop_last();
            self.lemma_aliases_fit_iff_no_problems(front);
            let last_problems = self.alias_problems(aliases.last(), (aliases.len() - 1) as usize);
            assert(self.alias_fits(aliases.last()) <==> last_problems.len() == 0);
            if forall|i: int| 0 <= i < aliases.len() ==> self.alias_fits(#[trigger] aliases[i]) {
                assert(self.alias_fits(aliases[aliases.len() - 1]));
            }
            if self.aliases_problems(aliases).len() == 0 {
                assert forall|i: int| 0 <= i < aliases.len() implies self.alias_fits(
                    #[trigger] aliases[i],
                ) by {
                    if i < front.len() {
                        assert(self.alias_fits(front[i]));
                    }
                }
            }
        }
    }

    /// A configuration is valid if and only if nothing is wrong with it.
    pub proof fn lemma_valid_iff_no_problems(self)
        requires
            self.aliases matches Some(aliases) ==> aliases@.len() <= usize::MAX,
        ensures
            self.is_valid() <==> self.all_problems().len() == 0,
    {
        if let Some(aliases) = self.aliases {
            self.lemma_aliases_fit_iff_no_problems(aliases@);
        }
    }

    /// Appends to `found` what is wrong with the alias at position `at`.
    fn check_alias(&self, alias: &Alias, at: usize, found: &mut Vec<ConfigProblem>)
        ensures
            final(found)@ == old(found)@ + self.alias_problems(*alias, at),
    {
        match Table::table_from_number(alias.number) {
            None => {
                found.push(ConfigProblem::AliasInNoTable { alias: at });
            },
            Some((table, addr)) => {
                // Check the register is addressable
                let in_range = match table {
                    Table::OutputCoils => self.output_coils.in_range(addr),
                    Table::InputCoils => self.input_coils.in_range(addr),
                    Table::InputRegisters => self.input_registers.in_range(addr),
                    Table::OutputRegisters => self.output_registers.in_range(addr),
                };
                if !in_range {
                    found.push(ConfigProblem::AliasOutOfRange { alias: at });
                }
                match table {
                    Table::OutputCoils | Table::InputCoils => {
                        // Coils must be booleans
                        match alias.data_type {
                            AliasType::Boolean | AliasType::Default => {},
                            _ => {
                                found.push(ConfigProblem::AliasCoilNotBoolean { alias: at });
                            },
                        }
                    },
                    _ => {
                        // Check that the size of the type does not exceed the range
                        let cnt = alias.data_type.size_in_words();
                        let end: u16 = alias.number + cnt;
                        let max: u16 = match table {
                            Table::InputRegisters => 39999,
                            _ => 49999,
                        };
                        if end > max {
                            found.push(ConfigProblem::AliasExceedsTable { alias: at });
                        }
                    },
                }
            },
        }
        assert(found@ =~= old(found)@ + self.alias_problems(*alias, at));
    }

    /// Lists everything that is wrong with the configuration, in the order
    /// in which it is checked.
    pub fn problems(&self) -> (found: Vec<ConfigProblem>)
        ensures
            found@ == self.all_problems(),
            found@.len() == 0 <==> self.is_valid(),
    {
        let mut found: Vec<ConfigProblem> = Vec::new();
        note(
            &mut found,
            self.slave_address.as_str().is_empty(),
            ConfigProblem::NoSlaveAddress,
        );
        note(&mut found, !self.input_coils.valid(), ConfigProblem::InputCoilsOutOfRange);
        note(&mut found, !self.output_coils.valid(), ConfigProblem::OutputCoilsOutOfRange);
        note(&mut found, !self.input_registers.valid(), ConfigProblem::InputRegistersOutOfRange);
        note(&mut found, !self.output_registers.valid(), ConfigProblem::OutputRegistersOutOfRange);
        match &self.aliases {
            None => {
            },
            Some(aliases) => {
                note(&mut found, !names_are_distinct(aliases), ConfigProblem::DuplicateAliasNames);
                let ghost head = found@;
                let mut i: usize = 0;
                while i < aliases.len()
                    invariant
                        i <= aliases.len(),
                        found@ == head + self.aliases_problems(aliases@.take(i as int)),
                    decreases aliases.len() - i,
                {
                    proof {
                        lemma_take_step(aliases@, i as int);
                    }
                    self.check_alias(&aliases[i], i, &mut found);
                    i += 1;
                }
                proof {
                    lemma_take_ends(aliases@);
                }
            },
        }
        proof {
            self.lemma_valid_iff_no_problems();
        }
        found
    }

    /// Whether the configuration can be used: `true` if and only if nothing
    /// is wrong with it.
    pub fn valid(&self) -> (ok: bool)
        ensures
            ok == self.is_valid(),
            ok == (self.all_problems().len() == 0),
    {
        self.problems().len() == 0
    }
}

} // verus!
