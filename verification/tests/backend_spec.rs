use neutron::backend::spec::{DTypeExt, GpuArch, SourceLang};
use neutron::base::DType;

#[test]
fn source_lang_extension_all_variants_nonempty() {
    for lang in [
        SourceLang::Cuda,
        SourceLang::Triton,
        SourceLang::Metal,
        SourceLang::Cann,
        SourceLang::Cpu,
    ] {
        let ext = lang.extension();
        assert!(!ext.is_empty(), "SourceLang::{:?} extension 为空", lang);
    }
}

#[test]
fn source_lang_name_all_variants_nonempty() {
    for lang in [
        SourceLang::Cuda,
        SourceLang::Triton,
        SourceLang::Metal,
        SourceLang::Cann,
        SourceLang::Cpu,
    ] {
        let name = lang.name();
        assert!(!name.is_empty(), "SourceLang::{:?} name 为空", lang);
    }
}

#[test]
fn cpu_source_lang_marked_not_implemented() {
    let name = SourceLang::Cpu.name();
    assert!(
        name.contains("not implemented"),
        "CPU SourceLang name 应含 'not implemented' 提示，实际: {name}"
    );
    assert!(!name.contains("CUDA"), "CPU SourceLang name 不应含 CUDA");
}

#[test]
fn source_lang_extension_matches_convention() {
    assert_eq!(SourceLang::Cuda.extension(), "cu");
    assert_eq!(SourceLang::Triton.extension(), "py");
    assert_eq!(SourceLang::Metal.extension(), "metal");
    assert_eq!(SourceLang::Cann.extension(), "cpp");
    assert_eq!(SourceLang::Cpu.extension(), "c");
}

#[test]
fn gpu_arch_name_all_variants_nonempty() {
    for arch in [
        GpuArch::Ampere80,
        GpuArch::Hopper90,
        GpuArch::Blackwell100,
        GpuArch::Apple6,
        GpuArch::Apple7,
        GpuArch::Apple8,
        GpuArch::Ascend910B1,
        GpuArch::Ascend910B3,
        GpuArch::Ascend310P3,
    ] {
        let name = arch.name();
        assert!(!name.is_empty(), "GpuArch::{:?} name 为空", arch);
    }
}

#[test]
fn gpu_arch_capability_flags() {
    assert!(GpuArch::Hopper90.has_tma());
    assert!(GpuArch::Hopper90.has_wgmma());
    assert!(GpuArch::Blackwell100.has_tma());
    assert!(GpuArch::Blackwell100.has_wgmma());
    assert!(!GpuArch::Ampere80.has_tma());
    assert!(!GpuArch::Ampere80.has_wgmma());

    assert!(GpuArch::Apple6.has_simdgroup());
    assert!(!GpuArch::Ampere80.has_simdgroup());

    assert!(GpuArch::Ascend910B1.has_cube_core());
    assert!(GpuArch::Ascend910B3.has_cube_core());
    assert!(!GpuArch::Ascend310P3.has_cube_core());
}

#[test]
fn dtype_ext_all_variants_mapped() {
    for dt in [
        DType::F32,
        DType::F16,
        DType::BF16,
        DType::I64,
        DType::I32,
        DType::Bool,
    ] {
        assert!(!dt.c_type().is_empty());
        assert!(!dt.msl_type().is_empty());
        assert!(!dt.triton_type().is_empty());
        assert!(!dt.cann_type().is_empty());
        assert!(dt.size_bytes() > 0);
    }
}
