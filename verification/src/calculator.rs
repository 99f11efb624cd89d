//! Unit conversion and regional pricing.
//!
//! A workload is first converted to the quantities of a month of 730 hours:
//! storage in MiB, egress in MiB and request units in millions. Egress is
//! scaled to the month when it is converted, and is then billed at the price
//! of request units, one GiB of egress as one million of them.
//!
//! Money is counted in whole *cost units* of 1/102400 dollar (1/1024 cent).
//! Prices are whole cents and quantities are MiB, so every cost below is an
//! exact integer number of units and no rounding takes place.

use vstd::prelude::*;

use crate::source::WorkloadDescription;
use crate::text::same_text;

verus! {

/// Bytes in one KiB, KiB in one MiB and MiB in one GiB.
pub const KILO: u64 = 1024;

/// Bytes in one MiB.
pub const MEGA: u64 = 1024 * 1024;

/// Hours in the month that is billed.
pub const HOURS_PER_MONTH: u64 = 730;

/// Request units are priced by the million.
pub const MILLION: u64 = 1_000_000;

/// Read requests that make one request unit.
pub const READS_PER_REQUEST_UNIT: u64 = 8;

/// Bytes read that make one request unit: 64 KiB.
pub const READ_BYTES_PER_REQUEST_UNIT: u64 = 64 * 1024;

/// Request units of one write request, and of one KiB written.
pub const REQUEST_UNITS_PER_WRITE: u64 = 3;

/// Cost units in one cent.
pub const UNITS_PER_CENT: u128 = 1024;

/// Cost units in one dollar.
pub const UNITS_PER_DOLLAR: u128 = 102_400;

/// Monthly billable quantities of one workload.
#[derive(Clone, Copy, Debug, PartialEq, Eq)]
pub struct WorkloadUsage {
    pub row_based_storage_in_mib: u64,
    pub network_egress_in_mib: u64,
    pub request_units_in_million: u64,
}

/// What a month of one workload costs, in cost units.
///
/// `free_credit` is the region's monthly allowance. It is carried beside the
/// two costs and not deducted from them; see [`WorkloadEstimation::total_cost`].
#[derive(Clone, Copy, Debug, PartialEq, Eq)]
pub struct WorkloadEstimation {
    pub storage_cost: u128,
    pub request_units_cost: u128,
    pub free_credit: u128,
}

/// The prices of one region, in whole cents.
#[derive(Clone, Copy, Debug, PartialEq, Eq)]
pub struct RegionPricing {
    /// Cents per GiB of row-based storage and month.
    pub row_based_storage_price: u32,
    /// Cents per million request units.
    pub request_unit_price: u32,
    /// Cents of free credit per month.
    pub free_credit: u32,
}

/// Why an estimate could not be made.
#[derive(Debug, PartialEq, Eq)]
pub enum EstimateError {
    /// The region is not one that has a price list; the string is the region asked for.
    InvalidRegion(String),
}

// ----------------------------------------------------------------------------
// Usage
// ----------------------------------------------------------------------------

/// A request rate as a number, an absent one counting as zero.
pub open spec fn requests_or_zero(requests_per_hour: Option<u64>) -> nat {
    match requests_per_hour {
        Some(n) => n as nat,
        None => 0,
    }
}

/// Request units that an hour of reads consumes: one per eight requests and
/// one per 64 KiB read.
pub open spec fn read_request_units_per_hour(workload: WorkloadDescription) -> nat {
    requests_or_zero(workload.read.requests_per_hour) / (READS_PER_REQUEST_UNIT as nat) + (
    workload.read.bytes_per_hour as nat) / (READ_BYTES_PER_REQUEST_UNIT as nat)
}

/// Request units that an hour of writes consumes: three per request and three
/// per KiB written.
pub open spec fn write_request_units_per_hour(workload: WorkloadDescription) -> nat {
    (requests_or_zero(workload.write.requests_per_hour) + (workload.write.bytes_per_hour as nat) / (
    KILO as nat)) * (REQUEST_UNITS_PER_WRITE as nat)
}

/// Data and indexes together, in whole MiB.
pub open spec fn row_based_storage_in_mib(workload: WorkloadDescription) -> nat {
    (workload.storage.data_in_bytes as nat + workload.storage.index_in_bytes as nat) / (
    MEGA as nat)
}

/// Egress of a month of 730 hours, in whole MiB.
pub open spec fn network_egress_in_mib(workload: WorkloadDescription) -> nat {
    (workload.egress.bytes_per_hour as nat) * (HOURS_PER_MONTH as nat) / (MEGA as nat)
}

/// Request units of a month of 730 hours, in whole millions.
pub open spec fn request_units_in_million(workload: WorkloadDescription) -> nat {
    (read_request_units_per_hour(workload) + write_request_units_per_hour(workload)) * (
    HOURS_PER_MONTH as nat) / (MILLION as nat)
}

/// The monthly billable quantities of `workload`.
pub open spec fn usage_of(workload: WorkloadDescription) -> WorkloadUsage {
    WorkloadUsage {
        row_based_storage_in_mib: row_based_storage_in_mib(workload) as u64,
        network_egress_in_mib: network_egress_in_mib(workload) as u64,
        request_units_in_million: request_units_in_million(workload) as u64,
    }
}

/// The billable quantities of each workload of `workloads`, in the same order.
pub open spec fn usages_of(workloads: Seq<WorkloadDescription>) -> Seq<WorkloadUsage> {
    Seq::new(workloads.len(), |i: int| usage_of(workloads[i]))
}

/// Every billable quantity fits in 64 bits, whatever the rates are, so that
/// [`usage_of`] loses nothing.
pub proof fn lemma_usage_is_bounded(workload: WorkloadDescription)
    ensures
        row_based_storage_in_mib(workload) < 0x2000_0000_0000,
        network_egress_in_mib(workload) < 0x40_0000_0000_0000,
        request_units_in_million(workload) < 0x100_0000_0000_0000,
        usage_of(workload).row_based_storage_in_mib == row_based_storage_in_mib(workload),
        usage_of(workload).network_egress_in_mib == network_egress_in_mib(workload),
        usage_of(workload).request_units_in_million == request_units_in_million(workload),
{
    let stored = workload.storage.data_in_bytes as nat + workload.storage.index_in_bytes as nat;
    assert(stored / 1048576 < 0x2000_0000_0000);
    let egress = (workload.egress.bytes_per_hour as nat) * 730;
    assert(egress / 1048576 < 0x40_0000_0000_0000);
    let units = (read_request_units_per_hour(workload) + write_request_units_per_hour(workload))
        * 730;
    assert(units < 0x1000_0000_0000_0000_0000);
    assert(units / 1_000_000 < 0x100_0000_0000_0000);
}

/// Converts one workload to its monthly billable quantities.
pub fn estimate_usage(workload: &WorkloadDescription) -> (usage: WorkloadUsage)
    ensures
        usage == usage_of(*workload),
        usage.row_based_storage_in_mib == row_based_storage_in_mib(*workload),
        usage.network_egress_in_mib == network_egress_in_mib(*workload),
        usage.request_units_in_million == request_units_in_million(*workload),
{
    proof {
        lemma_usage_is_bounded(*workload);
    }
    let read_requests: u128 = match workload.read.requests_per_hour {
        Some(n) => n as u128,
        None => 0,
    };
    let write_requests: u128 = match workload.write.requests_per_hour {
        Some(n) => n as u128,
        None => 0,
    };
    let read_units: u128 = read_requests / (READS_PER_REQUEST_UNIT as u128) + (
    workload.read.bytes_per_hour as u128) / (READ_BYTES_PER_REQUEST_UNIT as u128);
    let write_units: u128 = (write_requests + (workload.write.bytes_per_hour as u128) / (
    KILO as u128)) * (REQUEST_UNITS_PER_WRITE as u128);
    let stored: u128 = workload.storage.data_in_bytes as u128
        + workload.storage.index_in_bytes as u128;
    let egress: u128 = (workload.egress.bytes_per_hour as u128) * (HOURS_PER_MONTH as u128);
    let units: u128 = (read_units + write_units) * (HOURS_PER_MONTH as u128);
    WorkloadUsage {
        row_based_storage_in_mib: (stored / (MEGA as u128)) as u64,
        network_egress_in_mib: (egress / (MEGA as u128)) as u64,
        request_units_in_million: (units / (MILLION as u128)) as u64,
    }
}

/// Converts each workload to its monthly billable quantities, in order.
pub fn estimate_usages(workloads: &[WorkloadDescription]) -> (usages: Vec<WorkloadUsage>)
    ensures
        usages@ == usages_of(workloads@),
        usages@.len() == workloads@.len(),
        forall|i: int| 0 <= i < workloads@.len() ==> usages@[i] == usage_of(workloads@[i]),
{
    let mut usages: Vec<WorkloadUsage> = Vec::new();
    let mut i: usize = 0;
    while i < workloads.len()
        invariant
            i <= workloads@.len(),
            usages@.len() == i,
            forall|k: int| 0 <= k < i ==> usages@[k] == usage_of(workloads@[k]),
        decreases workloads@.len() - i,
    {
        let usage: WorkloadUsage = estimate_usage(&workloads[i]);
        usages.push(usage);
        i += 1;
    }
    assert(usages@ =~= usages_of(workloads@));
    usages
}

// ----------------------------------------------------------------------------
// Prices
// ----------------------------------------------------------------------------

/// The price list of the two regions in the United States.
pub open spec fn standard_pricing() -> RegionPricing {
    RegionPricing { row_based_storage_price: 20, request_unit_price: 10, free_credit: 600 }
}

/// The price list of the regions in Europe and Asia-Pacific.
pub open spec fn premium_pricing() -> RegionPricing {
    RegionPricing { row_based_storage_price: 24, request_unit_price: 12, free_credit: 720 }
}

/// The price list of `region`, for the five regions that have one.
pub open spec fn region_pricing(region: Seq<char>) -> Option<RegionPricing> {
    if region == "us-east-1"@ || region == "us-west-2"@ {
        Some(standard_pricing())
    } else if region == "eu-central-1"@ || region == "ap-southeast-1"@ || region
        == "ap-northeast-1"@ {
        Some(premium_pricing())
    } else {
        None
    }
}

impl RegionPricing {
    /// Looks up the price list of `region`; the name must match exactly.
    pub fn for_region(region: &str) -> (pricing: Option<RegionPricing>)
        ensures
            pricing == region_pricing(region@),
    {
        if same_text(region, "us-east-1") || same_text(region, "us-west-2") {
            Some(RegionPricing { row_based_storage_price: 20, request_unit_price: 10, free_credit: 600 })
        } else if same_text(region, "eu-central-1") || same_text(region, "ap-southeast-1")
            || same_text(region, "ap-northeast-1") {
            Some(RegionPricing { row_based_storage_price: 24, request_unit_price: 12, free_credit: 720 })
        } else {
            None
        }
    }
}

// ----------------------------------------------------------------------------
// Costs
// ----------------------------------------------------------------------------

/// Storage is billed per GiB: MiB times cents per GiB is the cost in units.
pub open spec fn storage_cost(pricing: RegionPricing, usage: WorkloadUsage) -> nat {
    (usage.row_based_storage_in_mib as nat) * (pricing.row_based_storage_price as nat)
}

/// Egress is billed at the request-unit rate, one GiB as one million units.
pub open spec fn request_units_cost(pricing: RegionPricing, usage: WorkloadUsage) -> nat {
    ((usage.network_egress_in_mib as nat) + (KILO as nat) * (
    usage.request_units_in_million as nat)) * (pricing.request_unit_price as nat)
}

/// The monthly allowance of the region, in cost units.
pub open spec fn free_credit(pricing: RegionPricing) -> nat {
    (pricing.free_credit as nat) * (UNITS_PER_CENT as nat)
}

/// The cost of `usage` at the prices of `pricing`.
pub open spec fn estimation_of(pricing: RegionPricing, usage: WorkloadUsage) -> WorkloadEstimation {
    WorkloadEstimation {
        storage_cost: storage_cost(pricing, usage) as u128,
        request_units_cost: request_units_cost(pricing, usage) as u128,
        free_credit: free_credit(pricing) as u128,
    }
}

/// The cost of each usage of `usages`, in the same order.
pub open spec fn estimations_of(pricing: RegionPricing, usages: Seq<WorkloadUsage>) -> Seq<
    WorkloadEstimation,
> {
    Seq::new(usages.len(), |i: int| estimation_of(pricing, usages[i]))
}

/// No cost exceeds 2^108 units, so that [`estimation_of`] loses nothing and
/// the two costs of an estimation can always be added.
pub proof fn lemma_estimation_is_bounded(pricing: RegionPricing, usage: WorkloadUsage)
    ensures
        storage_cost(pricing, usage) < 0x1_0000_0000_0000_0000_0000_0000,
        request_units_cost(pricing, usage) < 0x1000_0000_0000_0000_0000_0000_0000,
        free_credit(pricing) < 0x400_0000_0000,
        estimation_of(pricing, usage).storage_cost == storage_cost(pricing, usage),
        estimation_of(pricing, usage).request_units_cost == request_units_cost(pricing, usage),
        estimation_of(pricing, usage).free_credit == free_credit(pricing),
{
    let mib = usage.row_based_storage_in_mib as nat;
    let price = pricing.row_based_storage_price as nat;
    assert(mib * price < 0x1_0000_0000_0000_0000_0000_0000) by (nonlinear_arith)
        requires
            mib < 0x1_0000_0000_0000_0000,
            price < 0x1_0000_0000,
    ;
    let billed = (usage.network_egress_in_mib as nat) + 1024 * (
    usage.request_units_in_million as nat);
    let rate = pricing.request_unit_price as nat;
    assert(billed * rate < 0x1000_0000_0000_0000_0000_0000_0000) by (nonlinear_arith)
        requires
            billed < 0x1000_0000_0000_0000_0000,
            rate < 0x1_0000_0000,
    ;
}

/// Prices one usage.
pub fn calculate_one(pricing: RegionPricing, usage: WorkloadUsage) -> (estimation:
    WorkloadEstimation)
    ensures
        estimation == estimation_of(pricing, usage),
        estimation.storage_cost == storage_cost(pricing, usage),
        estimation.request_units_cost == request_units_cost(pricing, usage),
        estimation.free_credit == free_credit(pricing),
{
    proof {
        lemma_estimation_is_bounded(pricing, usage);
    }
    let billed: u128 = (usage.network_egress_in_mib as u128) + (KILO as u128) * (
    usage.request_units_in_million as u128);
    WorkloadEstimation {
        storage_cost: (usage.row_based_storage_in_mib as u128) * (
        pricing.row_based_storage_price as u128),
        request_units_cost: billed * (pricing.request_unit_price as u128),
        free_credit: (pricing.free_credit as u128) * UNITS_PER_CENT,
    }
}

/// Prices each usage, in order.
pub fn calculate(pricing: RegionPricing, usages: Vec<WorkloadUsage>) -> (estimations: Vec<
    WorkloadEstimation,
>)
    ensures
        estimations@ == estimations_of(pricing, usages@),
        estimations@.len() == usages@.len(),
        forall|i: int|
            0 <= i < usages@.len() ==> estimations@[i] == estimation_of(pricing, usages@[i]),
{
    let mut estimations: Vec<WorkloadEstimation> = Vec::new();
    let mut i: usize = 0;
    while i < usages.len()
        invariant
            i <= usages@.len(),
            estimations@.len() == i,
            forall|k: int| 0 <= k < i ==> estimations@[k] == estimation_of(pricing, usages@[k]),
        decreases usages@.len() - i,
    {
        let estimation: WorkloadEstimation = calculate_one(pricing, usages[i]);
        estimations.push(estimation);
        i += 1;
    }
    assert(estimations@ =~= estimations_of(pricing, usages@));
    estimations
}

/// What [`estimate_workload`] returns for a region and a workload.
pub open spec fn workload_estimate(region: Seq<char>, workload: WorkloadDescription) -> Option<
    WorkloadEstimation,
> {
    match region_pricing(region) {
        Some(pricing) => Some(estimation_of(pricing, usage_of(workload))),
        None => None,
    }
}

/// What [`estimate`] returns for a region and a batch of workloads.
pub open spec fn batch_estimate(region: Seq<char>, workloads: Seq<WorkloadDescription>) -> Option<
    Seq<WorkloadEstimation>,
> {
    match region_pricing(region) {
        Some(pricing) => Some(estimations_of(pricing, usages_of(workloads))),
        None => None,
    }
}

/// Estimates the monthly cost of one workload in `region`.
///
/// Fails with [`EstimateError::InvalidRegion`], carrying `region`, exactly
/// when the region has no price list.
pub fn estimate_workload(region: &str, workload: &WorkloadDescription) -> (result: Result<
    WorkloadEstimation,
    EstimateError,
>)
    ensures
        match workload_estimate(region@, *workload) {
            Some(estimation) => result == Ok::<WorkloadEstimation, EstimateError>(estimation),
            None => result matches Err(EstimateError::InvalidRegion(name)) && name@ == region@,
        },
{
    let usage: WorkloadUsage = estimate_usage(workload);
    match RegionPricing::for_region(region) {
        Some(pricing) => Ok(calculate_one(pricing, usage)),
        None => Err(EstimateError::InvalidRegion(region.to_owned())),
    }
}

/// Estimates the monthly cost of each workload in `region`.
///
/// The result has one estimation per workload, in the order of `workloads`,
/// each the same as [`estimate_workload`] gives for that workload alone.
/// Fails with [`EstimateError::InvalidRegion`], carrying `region`, exactly
/// when the region has no price list.
pub fn estimate(region: &str, workloads: &[WorkloadDescription]) -> (result: Result<
    Vec<WorkloadEstimation>,
    EstimateError,
>)
    ensures
        match batch_estimate(region@, workloads@) {
            Some(estimations) => result matches Ok(found) && found@ == estimations,
            None => result matches Err(EstimateError::InvalidRegion(name)) && name@ == region@,
        },
{
    let usages: Vec<WorkloadUsage> = estimate_usages(workloads);
    match RegionPricing::for_region(region) {
        Some(pricing) => Ok(calculate(pricing, usages)),
        None => Err(EstimateError::InvalidRegion(region.to_owned())),
    }
}

impl WorkloadEstimation {
    /// What is left to pay once the free credit is deducted: never below zero.
    pub open spec fn total(self) -> nat {
        if self.storage_cost + self.request_units_cost <= self.free_credit {
            0
        } else {
            (self.storage_cost + self.request_units_cost - self.free_credit) as nat
        }
    }

    /// The amount to pay for the month, in cost units.
    ///
    /// The two costs must add up within 128 bits, as those of every estimation
    /// that [`estimate`] returns do.
    pub fn total_cost(&self) -> (total: u128)
        requires
            self.storage_cost + self.request_units_cost <= u128::MAX,
        ensures
            total == self.total(),
    {
        let cost: u128 = self.storage_cost + self.request_units_cost;
        if cost <= self.free_credit {
            0
        } else {
            cost - self.free_credit
        }
    }
}

impl EstimateError {
    /// The text of the error.
    pub open spec fn message_text(self) -> Seq<char> {
        match self {
            EstimateError::InvalidRegion(region) => "The region '"@ + region@ + "' is invalid"@,
        }
    }

    /// The error as a sentence for the user.
    pub fn message(&self) -> (text: String)
        ensures
            text@ == self.message_text(),
    {
        match self {
            EstimateError::InvalidRegion(region) => {
                let mut text: String = "The region '".to_owned();
                text.append(region.as_str());
                text.append("' is invalid");
                text
            },
        }
    }
}

} // verus!
