//! The store of all records, each kept under its derived address.

use crate::address::Address;
use crate::derivation::{
    employee_seeds, found_employee_account, found_treasury, found_vesting_account, rederived,
    treasury_seeds, vesting_seeds,
};
use crate::guard::company_name_valid;
use crate::state::{EmployeeAccount, VestingAccount, VestingAccountView};
use crate::table::Table;
use vstd::prelude::*;

verus! {

/// A vesting program has a name that may be used and lives at the address
/// found for it, its treasury at the one found for that name's treasury, and
/// the salts it keeps give both addresses again.
pub open spec fn program_consistent(address: Seq<u8>, program: VestingAccountView) -> bool {
    &&& company_name_valid(program.company_name)
    &&& found_vesting_account(program.company_name) == Some((address, program.bump))
    &&& found_treasury(program.company_name) == Some(
        (program.treasury_token_account, program.treasury_bump),
    )
    &&& rederived(vesting_seeds(program.company_name), program.bump) == Some(address)
    &&& rederived(treasury_seeds(program.company_name), program.treasury_bump) == Some(
        program.treasury_token_account,
    )
}

/// A schedule belongs to a program that is kept, lives at the address found
/// for its beneficiary under that program, has its times in order, and has
/// paid out no more than was granted.
pub open spec fn schedule_consistent(
    programs: Map<Seq<u8>, VestingAccountView>,
    address: Seq<u8>,
    schedule: EmployeeAccount,
) -> bool {
    &&& programs.contains_key(schedule.vesting_account@)
    &&& found_employee_account(schedule.beneficiary@, schedule.vesting_account@) == Some(
        (address, schedule.bump),
    )
    &&& rederived(employee_seeds(schedule.beneficiary@, schedule.vesting_account@), schedule.bump)
        == Some(address)
    &&& schedule.well_ordered()
    &&& schedule.conserved()
}

/// Every record kept is consistent.
pub open spec fn consistent(
    programs: Map<Seq<u8>, VestingAccountView>,
    schedules: Map<Seq<u8>, EmployeeAccount>,
) -> bool {
    &&& forall|address: Seq<u8>| #[trigger]
        programs.contains_key(address) ==> program_consistent(address, programs[address])
    &&& forall|address: Seq<u8>| #[trigger]
        schedules.contains_key(address) ==> schedule_consistent(
            programs,
            address,
            schedules[address],
        )
}

/// All vesting programs and all schedules.
pub struct Registry {
    programs: Table<VestingAccount>,
    schedules: Table<EmployeeAccount>,
}

impl Registry {
    /// The vesting programs by address.
    pub closed spec fn programs(&self) -> Map<Seq<u8>, VestingAccountView> {
        self.programs.map().map_values(|program: VestingAccount| program@)
    }

    /// The schedules by address.
    pub closed spec fn schedules(&self) -> Map<Seq<u8>, EmployeeAccount> {
        self.schedules.map()
    }

    /// No address is held twice.
    pub closed spec fn tables_wf(&self) -> bool {
        self.programs.wf() && self.schedules.wf()
    }

    /// No address is held twice, and every record kept is consistent.
    pub open spec fn wf(&self) -> bool {
        self.tables_wf() && consistent(self.programs(), self.schedules())
    }

    /// A store that holds nothing.
    pub fn new() -> (r: Registry)
        ensures
            r.wf(),
            r.programs() == Map::<Seq<u8>, VestingAccountView>::empty(),
            r.schedules() == Map::<Seq<u8>, EmployeeAccount>::empty(),
    {
        let r = Registry { programs: Table::new(), schedules: Table::new() };
        assert(r.programs() =~= Map::<Seq<u8>, VestingAccountView>::empty());
        r
    }

    /// The vesting program kept under `address`.
    pub fn vesting_account(&self, address: &Address) -> (r: Option<&VestingAccount>)
        requires
            self.tables_wf(),
        ensures
            match r {
                Some(program) => self.programs().contains_key(address@) && self.programs()[address@]
                    == program@,
                None => !self.programs().contains_key(address@),
            },
    {
        self.programs.get(address)
    }

    /// The schedule kept under `address`.
    pub fn employee_account(&self, address: &Address) -> (r: Option<EmployeeAccount>)
        requires
            self.tables_wf(),
        ensures
            match r {
                Some(schedule) => self.schedules().contains_key(address@)
                    && self.schedules()[address@] == schedule,
                None => !self.schedules().contains_key(address@),
            },
    {
        match self.schedules.get(address) {
            Some(schedule) => Some(*schedule),
            None => None,
        }
    }

    /// Keeps a vesting program under `address`.
    pub(crate) fn put_vesting_account(&mut self, address: Address, program: VestingAccount)
        requires
            old(self).tables_wf(),
        ensures
            final(self).tables_wf(),
            final(self).programs() == old(self).programs().insert(address@, program@),
            final(self).schedules() == old(self).schedules(),
    {
        self.programs.put(address, program);
        assert(self.programs() =~= old(self).programs().insert(address@, program@));
    }

    /// Keeps a schedule under `address`.
    pub(crate) fn put_employee_account(&mut self, address: Address, schedule: EmployeeAccount)
        requires
            old(self).tables_wf(),
        ensures
            final(self).tables_wf(),
            final(self).schedules() == old(self).schedules().insert(address@, schedule),
            final(self).programs() == old(self).programs(),
    {
        self.schedules.put(address, schedule);
    }
}

} // verus!
