use cgroups_v2::controller_type::ControllerType;
use cgroups_v2::cpu::Cpu;
use cgroups_v2::hugetlb::HugeTlb;
use cgroups_v2::io::Io;
use cgroups_v2::limit::Limit;
use cgroups_v2::memory::Memory;
use cgroups_v2::pids::Pids;
use cgroups_v2::resources::{
    CpuSetSpec, CpuSpec, HugePageLimit, HugeTlbSpec, IoSpec, MemorySpec, PidsSpec, ResourceSpec,
    ThrottleDevice, WeightDevice,
};
use cgroups_v2::write::Write;

fn write(file: &str, value: &str) -> Write {
    Write { file: file.to_owned(), value: value.to_owned() }
}

#[test]
fn quota_and_period_go_to_cpu_max_together() {
    let cpu = CpuSpec { shares: None, quota: Some(Limit::Value(50000)), period: Some(100000) };
    assert_eq!(Cpu::apply(&cpu), vec![write("cpu.max", "50000 100000")]);
}

#[test]
fn period_alone_is_written_with_max_quota() {
    let cpu = CpuSpec { shares: None, quota: None, period: Some(100000) };
    assert_eq!(Cpu::apply(&cpu), vec![write("cpu.max", "max 100000")]);
    assert_eq!(Cpu::encode_max(None, Some(100000)).as_deref(), Some("max 100000"));
}

#[test]
fn quota_alone_is_written_by_itself() {
    let cpu = CpuSpec { shares: None, quota: Some(Limit::Value(50000)), period: None };
    assert_eq!(Cpu::apply(&cpu), vec![write("cpu.max", "50000")]);
}

#[test]
fn unlimited_quota_is_the_word_max() {
    let cpu = CpuSpec { shares: None, quota: Some(Limit::Max), period: Some(25000) };
    assert_eq!(Cpu::apply(&cpu), vec![write("cpu.max", "max 25000")]);
    let alone = CpuSpec { shares: None, quota: Some(Limit::Max), period: None };
    assert_eq!(Cpu::apply(&alone), vec![write("cpu.max", "max")]);
}

#[test]
fn shares_go_to_cpu_weight() {
    let cpu = CpuSpec { shares: Some(100), quota: None, period: None };
    assert_eq!(Cpu::apply(&cpu), vec![write("cpu.weight", "100")]);
}

#[test]
fn shares_come_before_bandwidth() {
    let cpu = CpuSpec { shares: Some(512), quota: Some(Limit::Value(20000)), period: Some(40000) };
    assert_eq!(
        Cpu::apply(&cpu),
        vec![write("cpu.weight", "512"), write("cpu.max", "20000 40000")]
    );
    assert!(Cpu::is_requested(&cpu));
}

#[test]
fn empty_cpu_writes_nothing() {
    let cpu = CpuSpec { shares: None, quota: None, period: None };
    assert!(Cpu::apply(&cpu).is_empty());
    assert_eq!(Cpu::encode_max(None, None), None);
    assert!(!Cpu::is_requested(&cpu));
}

#[test]
fn memory_limits_each_have_their_file() {
    let memory = MemorySpec {
        limit: Some(Limit::Value(536870912)),
        reservation: Some(Limit::Value(268435456)),
        swap: Some(Limit::Value(1073741824)),
    };
    assert_eq!(
        Memory::apply(&memory),
        vec![
            write("memory.max", "536870912"),
            write("memory.low", "268435456"),
            write("memory.swap.max", "1073741824"),
        ]
    );
    assert!(Memory::is_requested(&memory));
}

#[test]
fn unlimited_memory_is_the_word_max() {
    let memory = MemorySpec { limit: Some(Limit::Max), reservation: None, swap: Some(Limit::Max) };
    assert_eq!(
        Memory::apply(&memory),
        vec![write("memory.max", "max"), write("memory.swap.max", "max")]
    );
}

#[test]
fn single_memory_fields_write_one_file() {
    let limit = MemorySpec { limit: Some(Limit::Value(4096)), reservation: None, swap: None };
    assert_eq!(Memory::apply(&limit), vec![write("memory.max", "4096")]);
    let low = MemorySpec { limit: None, reservation: Some(Limit::Value(4096)), swap: None };
    assert_eq!(Memory::apply(&low), vec![write("memory.low", "4096")]);
    let swap = MemorySpec { limit: None, reservation: None, swap: Some(Limit::Value(0)) };
    assert_eq!(Memory::apply(&swap), vec![write("memory.swap.max", "0")]);
}

#[test]
fn empty_memory_writes_nothing() {
    let memory = MemorySpec { limit: None, reservation: None, swap: None };
    assert!(Memory::apply(&memory).is_empty());
    assert!(!Memory::is_requested(&memory));
}

#[test]
fn pids_max_is_written() {
    let pids = PidsSpec { max: Some(Limit::Value(1000)) };
    assert_eq!(Pids::apply(&pids), vec![write("pids.max", "1000")]);
    assert!(Pids::is_requested(&pids));
}

#[test]
fn unlimited_pids_is_the_word_max() {
    let pids = PidsSpec { max: Some(Limit::Max) };
    assert_eq!(Pids::apply(&pids), vec![write("pids.max", "max")]);
}

#[test]
fn unset_pids_max_writes_nothing() {
    let pids = PidsSpec { max: None };
    assert!(Pids::apply(&pids).is_empty());
    assert!(!Pids::is_requested(&pids));

    let resources = ResourceSpec { pids: Some(pids), ..ResourceSpec::default() };
    assert!(ControllerType::Pids.apply(&resources).is_empty());
    let without = ResourceSpec::default();
    assert!(ControllerType::Pids.apply(&without).is_empty());
}

#[test]
fn each_page_size_has_its_own_file() {
    let hugetlb = HugeTlbSpec {
        limits: vec![
            HugePageLimit { page_size: "2MB".to_owned(), limit: Limit::Value(4194304) },
            HugePageLimit { page_size: "1GB".to_owned(), limit: Limit::Max },
        ],
    };
    assert_eq!(
        HugeTlb::apply(&hugetlb),
        vec![write("hugetlb.2MB.max", "4194304"), write("hugetlb.1GB.max", "max")]
    );
    assert!(HugeTlb::is_requested(&hugetlb));
    assert_eq!(HugeTlb::apply_limit(&hugetlb.limits[0]), write("hugetlb.2MB.max", "4194304"));
}

#[test]
fn no_page_size_writes_nothing() {
    let hugetlb = HugeTlbSpec { limits: vec![] };
    assert!(HugeTlb::apply(&hugetlb).is_empty());
    assert!(!HugeTlb::is_requested(&hugetlb));
}

#[test]
fn each_device_entry_is_a_line_of_its_own() {
    let io = IoSpec {
        weight_devices: vec![
            WeightDevice { major: 8, minor: 0, weight: Some(200) },
            WeightDevice { major: 8, minor: 16, weight: None },
            WeightDevice { major: 253, minor: 1, weight: Some(1) },
        ],
        throttle_read_bps: vec![ThrottleDevice { major: 8, minor: 0, rate: 1048576 }],
        throttle_write_bps: vec![
            ThrottleDevice { major: 8, minor: 0, rate: 2097152 },
            ThrottleDevice { major: 8, minor: 16, rate: 0 },
        ],
        throttle_read_iops: vec![ThrottleDevice { major: 259, minor: 3, rate: 120 }],
        throttle_write_iops: vec![ThrottleDevice { major: 259, minor: 3, rate: 60 }],
    };
    assert_eq!(
        Io::apply(&io),
        vec![
            write("io.weight", "8:0 200"),
            write("io.weight", "253:1 1"),
            write("io.max", "8:0 rbps=1048576"),
            write("io.max", "8:0 wbps=2097152"),
            write("io.max", "8:16 wbps=0"),
            write("io.max", "259:3 riops=120"),
            write("io.max", "259:3 wiops=60"),
        ]
    );
    assert!(Io::is_requested(&io));
}

#[test]
fn throttle_line_names_device_key_and_rate() {
    let entry = ThrottleDevice { major: 8, minor: 0, rate: 18446744073709551615 };
    assert_eq!(
        Io::apply_throttle(&entry, "rbps"),
        write("io.max", "8:0 rbps=18446744073709551615")
    );
    assert_eq!(
        Io::apply_throttle(&entry, "wiops"),
        write("io.max", "8:0 wiops=18446744073709551615")
    );
}

#[test]
fn weight_entries_without_weight_ask_for_nothing() {
    let io = IoSpec {
        weight_devices: vec![
            WeightDevice { major: 8, minor: 0, weight: None },
            WeightDevice { major: 8, minor: 16, weight: None },
        ],
        ..IoSpec::default()
    };
    assert!(Io::apply(&io).is_empty());
    assert!(!Io::is_requested(&io));
}

#[test]
fn a_weight_anywhere_in_the_list_counts() {
    let io = IoSpec {
        weight_devices: vec![
            WeightDevice { major: 8, minor: 0, weight: None },
            WeightDevice { major: 8, minor: 16, weight: Some(10000) },
        ],
        ..IoSpec::default()
    };
    assert_eq!(Io::apply(&io), vec![write("io.weight", "8:16 10000")]);
    assert!(Io::is_requested(&io));
}

#[test]
fn empty_io_writes_nothing() {
    let io = IoSpec::default();
    assert!(Io::apply(&io).is_empty());
    assert!(!Io::is_requested(&io));
}

#[test]
fn a_controller_applies_only_its_own_slice() {
    let resources = ResourceSpec {
        cpu: Some(CpuSpec { shares: Some(50), quota: None, period: None }),
        cpuset: Some(CpuSetSpec { cpus: Some("0-1".to_owned()), mems: None }),
        io: None,
        memory: Some(MemorySpec { limit: Some(Limit::Max), reservation: None, swap: None }),
        hugetlb: None,
        pids: Some(PidsSpec { max: Some(Limit::Value(64)) }),
    };
    assert_eq!(ControllerType::Cpu.apply(&resources), vec![write("cpu.weight", "50")]);
    assert_eq!(ControllerType::CpuSet.apply(&resources), vec![write("cpuset.cpus", "0-1")]);
    assert!(ControllerType::Io.apply(&resources).is_empty());
    assert_eq!(ControllerType::Memory.apply(&resources), vec![write("memory.max", "max")]);
    assert!(ControllerType::HugeTlb.apply(&resources).is_empty());
    assert_eq!(ControllerType::Pids.apply(&resources), vec![write("pids.max", "64")]);

    assert!(ControllerType::Cpu.is_used(&resources));
    assert!(ControllerType::CpuSet.is_used(&resources));
    assert!(!ControllerType::Io.is_used(&resources));
    assert!(ControllerType::Memory.is_used(&resources));
    assert!(!ControllerType::HugeTlb.is_used(&resources));
    assert!(ControllerType::Pids.is_used(&resources));
}

#[test]
fn a_slice_without_fields_is_not_in_use() {
    let resources = ResourceSpec {
        cpu: Some(CpuSpec::default()),
        cpuset: Some(CpuSetSpec::default()),
        io: Some(IoSpec::default()),
        memory: Some(MemorySpec::default()),
        hugetlb: Some(HugeTlbSpec::default()),
        pids: Some(PidsSpec::default()),
    };
    let all = [
        ControllerType::Cpu,
        ControllerType::CpuSet,
        ControllerType::Io,
        ControllerType::Memory,
        ControllerType::HugeTlb,
        ControllerType::Pids,
    ];
    for controller in all {
        assert!(!controller.is_used(&resources));
        assert!(controller.apply(&resources).is_empty());
    }
}

#[test]
fn a_controller_is_used_exactly_when_it_writes() {
    let samples = [
        ResourceSpec::default(),
        ResourceSpec {
            io: Some(IoSpec {
                weight_devices: vec![WeightDevice { major: 1, minor: 2, weight: None }],
                ..IoSpec::default()
            }),
            ..ResourceSpec::default()
        },
        ResourceSpec {
            cpu: Some(CpuSpec { shares: None, quota: None, period: Some(1) }),
            hugetlb: Some(HugeTlbSpec {
                limits: vec![HugePageLimit {
                    page_size: "64KB".to_owned(),
                    limit: Limit::Value(0),
                }],
            }),
            ..ResourceSpec::default()
        },
    ];
    let all = [
        ControllerType::Cpu,
        ControllerType::CpuSet,
        ControllerType::Io,
        ControllerType::Memory,
        ControllerType::HugeTlb,
        ControllerType::Pids,
    ];
    for resources in &samples {
        for controller in all {
            assert_eq!(controller.is_used(resources), !controller.apply(resources).is_empty());
        }
    }
}
