use serverless_cost::calculator::{
    calculate, calculate_one, estimate, estimate_usage, estimate_usages, estimate_workload,
    EstimateError, RegionPricing, WorkloadEstimation, WorkloadUsage, UNITS_PER_CENT,
    UNITS_PER_DOLLAR,
};
use serverless_cost::source::{RequestDescription, StorageDescription, WorkloadDescription};

const REGIONS: [&str; 5] =
    ["us-east-1", "us-west-2", "eu-central-1", "ap-southeast-1", "ap-northeast-1"];

fn idle_workload() -> WorkloadDescription {
    WorkloadDescription {
        read: RequestDescription { requests_per_hour: None, bytes_per_hour: 0 },
        write: RequestDescription { requests_per_hour: None, bytes_per_hour: 0 },
        egress: RequestDescription { requests_per_hour: None, bytes_per_hour: 0 },
        storage: StorageDescription { data_in_bytes: 0, index_in_bytes: 0 },
    }
}

fn busy_workload() -> WorkloadDescription {
    WorkloadDescription {
        read: RequestDescription {
            requests_per_hour: Some(123_456_789),
            bytes_per_hour: 9_876_543_210,
        },
        write: RequestDescription {
            requests_per_hour: Some(55_555),
            bytes_per_hour: 1_000_000_000,
        },
        egress: RequestDescription { requests_per_hour: None, bytes_per_hour: 10_737_418_240 },
        storage: StorageDescription {
            data_in_bytes: 5 * 1024 * 1024 * 1024,
            index_in_bytes: 3 * 1024 * 1024 * 1024,
        },
    }
}

fn in_dollars(units: u128) -> f64 {
    units as f64 / UNITS_PER_DOLLAR as f64
}

#[test]
fn one_gib_in_us_east_1_costs_twenty_cents() {
    let mut workload = idle_workload();
    workload.storage.data_in_bytes = 1024 * 1024 * 1024;
    let estimation = estimate_workload("us-east-1", &workload).unwrap();
    assert_eq!(
        estimation,
        WorkloadEstimation { storage_cost: 20_480, request_units_cost: 0, free_credit: 614_400 }
    );
    assert_eq!(in_dollars(estimation.storage_cost), 0.20);
    assert_eq!(in_dollars(estimation.request_units_cost), 0.0);
    assert_eq!(in_dollars(estimation.free_credit), 6.0);
}

#[test]
fn eight_million_reads_in_eu_central_1_cost_87_60() {
    let mut workload = idle_workload();
    workload.read.requests_per_hour = Some(8_000_000);
    let usage = estimate_usage(&workload);
    assert_eq!(
        usage,
        WorkloadUsage {
            row_based_storage_in_mib: 0,
            network_egress_in_mib: 0,
            request_units_in_million: 730,
        }
    );
    let estimation = estimate_workload("eu-central-1", &workload).unwrap();
    assert_eq!(estimation.storage_cost, 0);
    assert_eq!(estimation.request_units_cost, 8_970_240);
    assert_eq!(estimation.free_credit, 737_280);
    assert_eq!(in_dollars(estimation.request_units_cost), 87.60);
}

#[test]
fn idle_workload_costs_nothing_in_every_region() {
    for region in REGIONS {
        let estimation = estimate_workload(region, &idle_workload()).unwrap();
        assert_eq!(estimation.storage_cost, 0, "{}", region);
        assert_eq!(estimation.request_units_cost, 0, "{}", region);
    }
    let mut zero_rates = idle_workload();
    zero_rates.read.requests_per_hour = Some(0);
    zero_rates.write.requests_per_hour = Some(0);
    let estimation = estimate_workload("us-west-2", &zero_rates).unwrap();
    assert_eq!(
        estimation,
        WorkloadEstimation { storage_cost: 0, request_units_cost: 0, free_credit: 614_400 }
    );
}

#[test]
fn free_credit_follows_the_price_table() {
    let credit = |region: &str| {
        in_dollars(estimate_workload(region, &idle_workload()).unwrap().free_credit)
    };
    assert_eq!(credit("us-east-1"), 6.0);
    assert_eq!(credit("us-west-2"), 6.0);
    assert_eq!(credit("eu-central-1"), 7.2);
    assert_eq!(credit("ap-southeast-1"), 7.2);
    assert_eq!(credit("ap-northeast-1"), 7.2);
}

#[test]
fn price_table_is_exact() {
    let standard =
        RegionPricing { row_based_storage_price: 20, request_unit_price: 10, free_credit: 600 };
    let premium =
        RegionPricing { row_based_storage_price: 24, request_unit_price: 12, free_credit: 720 };
    assert_eq!(RegionPricing::for_region("us-east-1"), Some(standard));
    assert_eq!(RegionPricing::for_region("us-west-2"), Some(standard));
    assert_eq!(RegionPricing::for_region("eu-central-1"), Some(premium));
    assert_eq!(RegionPricing::for_region("ap-southeast-1"), Some(premium));
    assert_eq!(RegionPricing::for_region("ap-northeast-1"), Some(premium));
    assert_eq!(RegionPricing::for_region("us-east-2"), None);
    assert_eq!(RegionPricing::for_region("US-EAST-1"), None);
    assert_eq!(RegionPricing::for_region("us-east-1 "), None);
    assert_eq!(RegionPricing::for_region(""), None);
}

#[test]
fn unknown_region_is_rejected() {
    assert_eq!(
        estimate("not-a-region", &[idle_workload()]),
        Err(EstimateError::InvalidRegion("not-a-region".to_string()))
    );
    assert_eq!(
        estimate("not-a-region", &[busy_workload(), idle_workload()]),
        Err(EstimateError::InvalidRegion("not-a-region".to_string()))
    );
    assert_eq!(
        estimate("not-a-region", &[]),
        Err(EstimateError::InvalidRegion("not-a-region".to_string()))
    );
    assert_eq!(
        estimate_workload("not-a-region", &busy_workload()),
        Err(EstimateError::InvalidRegion("not-a-region".to_string()))
    );
}

#[test]
fn invalid_region_message_names_the_region() {
    let error = estimate_workload("mars-north-1", &idle_workload()).unwrap_err();
    assert_eq!(error.message(), "The region 'mars-north-1' is invalid");
}

#[test]
fn usage_formulas_are_exact() {
    assert_eq!(
        estimate_usage(&busy_workload()),
        WorkloadUsage {
            row_based_storage_in_mib: 8192,
            network_egress_in_mib: 7_475_200,
            request_units_in_million: 13_635,
        }
    );
}

#[test]
fn read_units_count_requests_in_eights_and_bytes_in_64_kib() {
    let mut workload = idle_workload();
    // 10959 requests are 1369 units: 999370 unit-hours a month, no million yet.
    workload.read.requests_per_hour = Some(10_959);
    assert_eq!(estimate_usage(&workload).request_units_in_million, 0);
    // 10960 requests are 1370 units: 1000100 unit-hours a month.
    workload.read.requests_per_hour = Some(10_960);
    assert_eq!(estimate_usage(&workload).request_units_in_million, 1);
    workload.read.requests_per_hour = None;
    workload.read.bytes_per_hour = 1370 * 65_536 - 1;
    assert_eq!(estimate_usage(&workload).request_units_in_million, 0);
    workload.read.bytes_per_hour = 1370 * 65_536;
    assert_eq!(estimate_usage(&workload).request_units_in_million, 1);
}

#[test]
fn write_units_count_requests_and_kib_three_times() {
    let mut workload = idle_workload();
    workload.write.requests_per_hour = Some(456);
    assert_eq!(estimate_usage(&workload).request_units_in_million, 0);
    workload.write.requests_per_hour = Some(457);
    assert_eq!(estimate_usage(&workload).request_units_in_million, 1);
    workload.write.requests_per_hour = None;
    workload.write.bytes_per_hour = 457 * 1024 - 1;
    assert_eq!(estimate_usage(&workload).request_units_in_million, 0);
    workload.write.bytes_per_hour = 457 * 1024;
    assert_eq!(estimate_usage(&workload).request_units_in_million, 1);
}

#[test]
fn egress_is_scaled_to_a_month_and_billed_as_request_units() {
    let mut workload = idle_workload();
    workload.egress.bytes_per_hour = 1024 * 1024;
    let usage = estimate_usage(&workload);
    assert_eq!(usage.network_egress_in_mib, 730);
    assert_eq!(usage.request_units_in_million, 0);
    let estimation = estimate_workload("us-east-1", &workload).unwrap();
    assert_eq!(estimation.request_units_cost, 7300);
    // An egress request rate is not billed.
    workload.egress.requests_per_hour = Some(1_000_000_000);
    assert_eq!(estimate_workload("us-east-1", &workload).unwrap(), estimation);
}

#[test]
fn storage_counts_data_and_indexes_in_whole_mib() {
    let mut workload = idle_workload();
    workload.storage.data_in_bytes = 1024 * 1024 - 1;
    assert_eq!(estimate_usage(&workload).row_based_storage_in_mib, 0);
    workload.storage.index_in_bytes = 1;
    assert_eq!(estimate_usage(&workload).row_based_storage_in_mib, 1);
    assert_eq!(estimate_workload("eu-central-1", &workload).unwrap().storage_cost, 24);
}

#[test]
fn largest_rates_are_estimated_without_overflow() {
    let most = RequestDescription { requests_per_hour: Some(u64::MAX), bytes_per_hour: u64::MAX };
    let workload = WorkloadDescription {
        read: most,
        write: most,
        egress: most,
        storage: StorageDescription { data_in_bytes: u64::MAX, index_in_bytes: u64::MAX },
    };
    assert_eq!(
        estimate_usage(&workload),
        WorkloadUsage {
            row_based_storage_in_mib: 35_184_372_088_831,
            network_egress_in_mib: 12_842_295_812_423_679,
            request_units_in_million: 42_121_291_927_618_678,
        }
    );
    let estimation = estimate_workload("ap-northeast-1", &workload).unwrap();
    assert_eq!(
        estimation,
        WorkloadEstimation {
            storage_cost: 844_424_930_131_944,
            request_units_cost: 517_740_542_756_327_399_412,
            free_credit: 737_280,
        }
    );
    assert_eq!(estimation.total_cost(), 844_424_930_131_944 + 517_740_542_756_327_399_412 - 737_280);
}

#[test]
fn costs_of_a_busy_workload() {
    assert_eq!(
        estimate_workload("ap-southeast-1", &busy_workload()),
        Ok(WorkloadEstimation {
            storage_cost: 196_608,
            request_units_cost: 257_249_280,
            free_credit: 737_280,
        })
    );
    assert_eq!(
        estimate_workload("us-west-2", &busy_workload()),
        Ok(WorkloadEstimation {
            storage_cost: 163_840,
            request_units_cost: 214_374_400,
            free_credit: 614_400,
        })
    );
}

#[test]
fn batch_keeps_order_and_matches_single_estimates() {
    let mut second = idle_workload();
    second.storage.data_in_bytes = 7 * 1024 * 1024 * 1024;
    let mut third = idle_workload();
    third.write.requests_per_hour = Some(1_000_000);
    let workloads = [busy_workload(), second, third, idle_workload(), busy_workload()];
    for region in REGIONS {
        let batch = estimate(region, &workloads).unwrap();
        assert_eq!(batch.len(), workloads.len());
        for (index, workload) in workloads.iter().enumerate() {
            assert_eq!(batch[index], estimate_workload(region, workload).unwrap());
        }
    }
    assert_eq!(estimate("us-east-1", &[]), Ok(vec![]));
}

#[test]
fn usages_and_estimations_are_made_item_by_item() {
    let workloads = [idle_workload(), busy_workload()];
    let usages = estimate_usages(&workloads);
    assert_eq!(usages, vec![estimate_usage(&workloads[0]), estimate_usage(&workloads[1])]);
    let pricing = RegionPricing::for_region("eu-central-1").unwrap();
    let estimations = calculate(pricing, usages.clone());
    assert_eq!(
        estimations,
        vec![calculate_one(pricing, usages[0]), calculate_one(pricing, usages[1])]
    );
    assert_eq!(estimations[1].storage_cost, 196_608);
}

#[test]
fn more_data_never_costs_less() {
    let mut previous = 0;
    for gib in 0..64u64 {
        let mut workload = idle_workload();
        workload.storage.data_in_bytes = gib * 1024 * 1024 * 1024;
        let cost = estimate_workload("us-east-1", &workload).unwrap().storage_cost;
        if gib > 0 {
            assert!(cost > previous);
        }
        previous = cost;
    }
    // One byte more stays within the same MiB and costs the same.
    let mut workload = idle_workload();
    let before = estimate_workload("us-east-1", &workload).unwrap().storage_cost;
    workload.storage.data_in_bytes = 1;
    assert_eq!(estimate_workload("us-east-1", &workload).unwrap().storage_cost, before);
}

#[test]
fn more_requests_never_cost_less() {
    let cost_of = |reads: u64, writes: u64| {
        let mut workload = busy_workload();
        workload.read.requests_per_hour = Some(reads);
        workload.write.requests_per_hour = Some(writes);
        estimate_workload("eu-central-1", &workload).unwrap().request_units_cost
    };
    let mut previous = cost_of(0, 0);
    for step in 1..50u64 {
        let with_reads = cost_of(step * 10_960, 0);
        assert!(with_reads > previous);
        previous = with_reads;
    }
    let mut previous = cost_of(0, 0);
    for step in 1..50u64 {
        let with_writes = cost_of(0, step * 457);
        assert!(with_writes > previous);
        previous = with_writes;
    }
    assert!(cost_of(1, 0) >= cost_of(0, 0));
    assert!(cost_of(0, 1) >= cost_of(0, 0));
}

#[test]
fn total_cost_deducts_the_free_credit_down_to_zero() {
    let below = WorkloadEstimation { storage_cost: 100, request_units_cost: 200, free_credit: 301 };
    assert_eq!(below.total_cost(), 0);
    let equal = WorkloadEstimation { storage_cost: 100, request_units_cost: 200, free_credit: 300 };
    assert_eq!(equal.total_cost(), 0);
    let above = WorkloadEstimation { storage_cost: 100, request_units_cost: 200, free_credit: 299 };
    assert_eq!(above.total_cost(), 1);
    let mut workload = idle_workload();
    workload.read.requests_per_hour = Some(8_000_000);
    let estimation = estimate_workload("eu-central-1", &workload).unwrap();
    assert_eq!(in_dollars(estimation.total_cost()), 80.4);
}

#[test]
fn cost_units_divide_cents_and_dollars() {
    assert_eq!(UNITS_PER_CENT, 1024);
    assert_eq!(UNITS_PER_DOLLAR, 100 * UNITS_PER_CENT);
}
