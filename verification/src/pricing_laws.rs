//! What holds of every estimate.

use vstd::prelude::*;

use crate::calculator::{
    batch_estimate, estimation_of, free_credit, lemma_estimation_is_bounded,
    lemma_usage_is_bounded, network_egress_in_mib, premium_pricing, read_request_units_per_hour,
    region_pricing, request_units_cost, request_units_in_million, requests_or_zero,
    row_based_storage_in_mib, standard_pricing, storage_cost, usage_of, workload_estimate,
    write_request_units_per_hour, WorkloadEstimation,
};
use crate::source::{RequestDescription, StorageDescription, WorkloadDescription};

verus! {

/// A workload that stores nothing and moves nothing; an absent request rate
/// counts as none.
pub open spec fn is_idle(workload: WorkloadDescription) -> bool {
    &&& requests_or_zero(workload.read.requests_per_hour) == 0
    &&& workload.read.bytes_per_hour == 0
    &&& requests_or_zero(workload.write.requests_per_hour) == 0
    &&& workload.write.bytes_per_hour == 0
    &&& workload.egress.bytes_per_hour == 0
    &&& workload.storage.data_in_bytes == 0
    &&& workload.storage.index_in_bytes == 0
}

/// The five regions and their price lists: 20 and 10 cents with 6 dollars of
/// credit in the United States, 24 and 12 cents with 7.20 dollars elsewhere.
/// No other name has one.
pub proof fn lemma_price_table(region: Seq<char>)
    ensures
        region == "us-east-1"@ ==> region_pricing(region) == Some(standard_pricing()),
        region == "us-west-2"@ ==> region_pricing(region) == Some(standard_pricing()),
        region == "eu-central-1"@ ==> region_pricing(region) == Some(premium_pricing()),
        region == "ap-southeast-1"@ ==> region_pricing(region) == Some(premium_pricing()),
        region == "ap-northeast-1"@ ==> region_pricing(region) == Some(premium_pricing()),
        region_pricing(region) is Some <==> (region == "us-east-1"@ || region == "us-west-2"@
            || region == "eu-central-1"@ || region == "ap-southeast-1"@ || region
            == "ap-northeast-1"@),
{
    reveal_strlit("us-east-1");
    reveal_strlit("us-west-2");
    reveal_strlit("eu-central-1");
    reveal_strlit("ap-southeast-1");
    reveal_strlit("ap-northeast-1");
    if region == "eu-central-1"@ || region == "ap-southeast-1"@ || region == "ap-northeast-1"@ {
        assert(region.len() >= 12);
        assert("us-east-1"@.len() == 9);
        assert("us-west-2"@.len() == 9);
    }
}

/// In every region that has a price list, an idle workload costs nothing and
/// the estimation carries the region's free credit: 6 dollars in the United
/// States, 7.20 dollars elsewhere.
pub proof fn lemma_idle_workload_costs_nothing(region: Seq<char>, workload: WorkloadDescription)
    requires
        region_pricing(region) is Some,
        is_idle(workload),
    ensures
        workload_estimate(region, workload) matches Some(estimation) && estimation.storage_cost
            == 0 && estimation.request_units_cost == 0 && estimation.free_credit == free_credit(
            region_pricing(region)->0,
        ),
        region == "us-east-1"@ || region == "us-west-2"@ ==> workload_estimate(region, workload)
            == Some(
            WorkloadEstimation { storage_cost: 0, request_units_cost: 0, free_credit: 614_400 },
        ),
        region == "eu-central-1"@ || region == "ap-southeast-1"@ || region == "ap-northeast-1"@
            ==> workload_estimate(region, workload) == Some(
            WorkloadEstimation { storage_cost: 0, request_units_cost: 0, free_credit: 737_280 },
        ),
{
    lemma_price_table(region);
    let pricing = region_pricing(region)->0;
    let usage = usage_of(workload);
    lemma_usage_is_bounded(workload);
    lemma_estimation_is_bounded(pricing, usage);
    assert(usage.row_based_storage_in_mib == 0);
    assert(usage.network_egress_in_mib == 0);
    assert(usage.request_units_in_million == 0);
    assert(storage_cost(pricing, usage) == 0) by (nonlinear_arith)
        requires
            usage.row_based_storage_in_mib == 0,
    ;
    assert(request_units_cost(pricing, usage) == 0) by (nonlinear_arith)
        requires
            usage.network_egress_in_mib == 0,
            usage.request_units_in_million == 0,
    ;
}

/// The name `not-a-region` has no price list, so an estimate for it fails,
/// whatever the workloads are.
pub proof fn lemma_unlisted_region_is_rejected(
    workload: WorkloadDescription,
    workloads: Seq<WorkloadDescription>,
)
    ensures
        region_pricing("not-a-region"@) is None,
        workload_estimate("not-a-region"@, workload) is None,
        batch_estimate("not-a-region"@, workloads) is None,
{
    reveal_strlit("not-a-region");
    reveal_strlit("us-east-1");
    reveal_strlit("us-west-2");
    reveal_strlit("eu-central-1");
    reveal_strlit("ap-southeast-1");
    reveal_strlit("ap-northeast-1");
    assert("not-a-region"@[0] == 'n');
}

/// A batch is estimated exactly when each of its workloads would be, and its
/// estimations stand in the order of the workloads, each equal to the
/// estimate of that workload alone.
pub proof fn lemma_batch_matches_single(region: Seq<char>, workloads: Seq<WorkloadDescription>)
    ensures
        batch_estimate(region, workloads) is Some <==> region_pricing(region) is Some,
        batch_estimate(region, workloads) matches Some(estimations) ==> {
            &&& estimations.len() == workloads.len()
            &&& forall|i: int|
                0 <= i < workloads.len() ==> workload_estimate(region, workloads[i]) == Some(
                    #[trigger] estimations[i],
                )
        },
        forall|i: int|
            0 <= i < workloads.len() ==> (#[trigger] workload_estimate(region, workloads[i])
                is Some <==> batch_estimate(region, workloads) is Some),
{
}

/// `higher` is `lower` with more data stored and nothing else changed.
pub open spec fn stores_more(lower: WorkloadDescription, higher: WorkloadDescription) -> bool {
    &&& lower.storage.data_in_bytes < higher.storage.data_in_bytes
    &&& higher == (WorkloadDescription {
        storage: StorageDescription {
            data_in_bytes: higher.storage.data_in_bytes,
            index_in_bytes: lower.storage.index_in_bytes,
        },
        ..lower
    })
}

/// `higher` is `lower` with more read requests per hour and nothing else changed.
pub open spec fn reads_more(lower: WorkloadDescription, higher: WorkloadDescription) -> bool {
    &&& requests_or_zero(lower.read.requests_per_hour) < requests_or_zero(
        higher.read.requests_per_hour,
    )
    &&& higher == (WorkloadDescription {
        read: RequestDescription {
            requests_per_hour: higher.read.requests_per_hour,
            bytes_per_hour: lower.read.bytes_per_hour,
        },
        ..lower
    })
}

/// `higher` is `lower` with more write requests per hour and nothing else changed.
pub open spec fn writes_more(lower: WorkloadDescription, higher: WorkloadDescription) -> bool {
    &&& requests_or_zero(lower.write.requests_per_hour) < requests_or_zero(
        higher.write.requests_per_hour,
    )
    &&& higher == (WorkloadDescription {
        write: RequestDescription {
            requests_per_hour: higher.write.requests_per_hour,
            bytes_per_hour: lower.write.bytes_per_hour,
        },
        ..lower
    })
}

/// Storing more data never lowers the storage cost and leaves the
/// request-unit cost as it is. The storage cost rises exactly when the
/// footprint reaches a further whole MiB, which one more MiB of data always
/// does.
pub proof fn lemma_storage_cost_is_monotonic(
    region: Seq<char>,
    lower: WorkloadDescription,
    higher: WorkloadDescription,
)
    requires
        region_pricing(region) is Some,
        stores_more(lower, higher),
    ensures
        ({
            let pricing = region_pricing(region)->0;
            let before = estimation_of(pricing, usage_of(lower));
            let after = estimation_of(pricing, usage_of(higher));
            &&& before.storage_cost <= after.storage_cost
            &&& before.request_units_cost == after.request_units_cost
            &&& before.storage_cost < after.storage_cost <==> row_based_storage_in_mib(lower)
                < row_based_storage_in_mib(higher)
            &&& higher.storage.data_in_bytes - lower.storage.data_in_bytes >= 1048576
                ==> before.storage_cost < after.storage_cost
        }),
{
    let pricing = region_pricing(region)->0;
    lemma_usage_is_bounded(lower);
    lemma_usage_is_bounded(higher);
    lemma_estimation_is_bounded(pricing, usage_of(lower));
    lemma_estimation_is_bounded(pricing, usage_of(higher));
    let a = row_based_storage_in_mib(lower);
    let b = row_based_storage_in_mib(higher);
    let price = pricing.row_based_storage_price as nat;
    assert(price > 0);
    assert(a <= b);
    lemma_product_order(a, b, price);
}

/// With more data stored, the storage cost is strictly higher, provided the
/// footprint reaches a further whole MiB.
pub proof fn lemma_storage_cost_strictly_increases(
    region: Seq<char>,
    lower: WorkloadDescription,
    higher: WorkloadDescription,
)
    requires
        region_pricing(region) is Some,
        stores_more(lower, higher),
        row_based_storage_in_mib(lower) < row_based_storage_in_mib(higher),
    ensures
        workload_estimate(region, lower)->0.storage_cost < workload_estimate(
            region,
            higher,
        )->0.storage_cost,
{
    lemma_storage_cost_is_monotonic(region, lower, higher);
}

/// More read requests never lower the request-unit cost and leave the storage
/// cost as it is. The request-unit cost rises exactly when the month reaches
/// a further whole million of request units, which 10960 more read requests
/// per hour always do.
pub proof fn lemma_read_requests_cost_is_monotonic(
    region: Seq<char>,
    lower: WorkloadDescription,
    higher: WorkloadDescription,
)
    requires
        region_pricing(region) is Some,
        reads_more(lower, higher),
    ensures
        ({
            let pricing = region_pricing(region)->0;
            let before = estimation_of(pricing, usage_of(lower));
            let after = estimation_of(pricing, usage_of(higher));
            &&& before.request_units_cost <= after.request_units_cost
            &&& before.storage_cost == after.storage_cost
            &&& before.request_units_cost < after.request_units_cost <==> request_units_in_million(
                lower,
            ) < request_units_in_million(higher)
            &&& requests_or_zero(higher.read.requests_per_hour) - requests_or_zero(
                lower.read.requests_per_hour,
            ) >= 10960 ==> before.request_units_cost < after.request_units_cost
        }),
{
    let pricing = region_pricing(region)->0;
    lemma_usage_is_bounded(lower);
    lemma_usage_is_bounded(higher);
    lemma_estimation_is_bounded(pricing, usage_of(lower));
    lemma_estimation_is_bounded(pricing, usage_of(higher));
    let egress = network_egress_in_mib(lower);
    let a = request_units_in_million(lower);
    let b = request_units_in_million(higher);
    let rate = pricing.request_unit_price as nat;
    assert(rate > 0);
    assert(network_egress_in_mib(higher) == egress);
    assert(write_request_units_per_hour(lower) == write_request_units_per_hour(higher));
    assert(read_request_units_per_hour(lower) <= read_request_units_per_hour(higher));
    assert(a <= b);
    if requests_or_zero(higher.read.requests_per_hour) - requests_or_zero(
        lower.read.requests_per_hour,
    ) >= 10960 {
        // 1370 more request units an hour are 1000100 more a month.
        assert(read_request_units_per_hour(lower) + 1370 <= read_request_units_per_hour(higher));
        assert(a < b);
    }
    lemma_product_order(egress + 1024 * a, egress + 1024 * b, rate);
}

/// With more read requests, the request-unit cost is strictly higher, provided
/// the month reaches a further whole million of request units.
pub proof fn lemma_read_requests_cost_strictly_increases(
    region: Seq<char>,
    lower: WorkloadDescription,
    higher: WorkloadDescription,
)
    requires
        region_pricing(region) is Some,
        reads_more(lower, higher),
        request_units_in_million(lower) < request_units_in_million(higher),
    ensures
        workload_estimate(region, lower)->0.request_units_cost < workload_estimate(
            region,
            higher,
        )->0.request_units_cost,
{
    lemma_read_requests_cost_is_monotonic(region, lower, higher);
}

/// More write requests never lower the request-unit cost and leave the
/// storage cost as it is. The request-unit cost rises exactly when the month
/// reaches a further whole million of request units, which 457 more write
/// requests per hour always do.
pub proof fn lemma_write_requests_cost_is_monotonic(
    region: Seq<char>,
    lower: WorkloadDescription,
    higher: WorkloadDescription,
)
    requires
        region_pricing(region) is Some,
        writes_more(lower, higher),
    ensures
        ({
            let pricing = region_pricing(region)->0;
            let before = estimation_of(pricing, usage_of(lower));
            let after = estimation_of(pricing, usage_of(higher));
            &&& before.request_units_cost <= after.request_units_cost
            &&& before.storage_cost == after.storage_cost
            &&& before.request_units_cost < after.request_units_cost <==> request_units_in_million(
                lower,
            ) < request_units_in_million(higher)
            &&& requests_or_zero(higher.write.requests_per_hour) - requests_or_zero(
                lower.write.requests_per_hour,
            ) >= 457 ==> before.request_units_cost < after.request_units_cost
        }),
{
    let pricing = region_pricing(region)->0;
    lemma_usage_is_bounded(lower);
    lemma_usage_is_bounded(higher);
    lemma_estimation_is_bounded(pricing, usage_of(lower));
    lemma_estimation_is_bounded(pricing, usage_of(higher));
    let egress = network_egress_in_mib(lower);
    let a = request_units_in_million(lower);
    let b = request_units_in_million(higher);
    let rate = pricing.request_unit_price as nat;
    assert(rate > 0);
    assert(network_egress_in_mib(higher) == egress);
    assert(read_request_units_per_hour(lower) == read_request_units_per_hour(higher));
    assert(write_request_units_per_hour(lower) <= write_request_units_per_hour(higher));
    assert(a <= b);
    if requests_or_zero(higher.write.requests_per_hour) - requests_or_zero(
        lower.write.requests_per_hour,
    ) >= 457 {
        // 1371 more request units an hour are 1000830 more a month.
        assert(write_request_units_per_hour(lower) + 1371 <= write_request_units_per_hour(higher));
        assert(a < b);
    }
    lemma_product_order(egress + 1024 * a, egress + 1024 * b, rate);
}

/// With more write requests, the request-unit cost is strictly higher,
/// provided the month reaches a further whole million of request units.
pub proof fn lemma_write_requests_cost_strictly_increases(
    region: Seq<char>,
    lower: WorkloadDescription,
    higher: WorkloadDescription,
)
    requires
        region_pricing(region) is Some,
        writes_more(lower, higher),
        request_units_in_million(lower) < request_units_in_million(higher),
    ensures
        workload_estimate(region, lower)->0.request_units_cost < workload_estimate(
            region,
            higher,
        )->0.request_units_cost,
{
    lemma_write_requests_cost_is_monotonic(region, lower, higher);
}

/// Multiplying by a positive factor keeps the order of two numbers.
proof fn lemma_product_order(a: nat, b: nat, factor: nat)
    requires
        factor > 0,
        a <= b,
    ensures
        a * factor <= b * factor,
        a < b <==> a * factor < b * factor,
{
    assert(a * factor <= b * factor) by (nonlinear_arith)
        requires
            a <= b,
    ;
    if a < b {
        assert(a * factor < b * factor) by (nonlinear_arith)
            requires
                a < b,
                factor > 0,
        ;
    }
}

} // verus!
