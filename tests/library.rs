use asar_snes::{
    conclude_patch, is_nul_free, label_value_from_raw, settle_rom, with_asar_lock,
    AdvancedPatchOptions, ApplyGate, BasicPatchOptions, ConcurrentApplyError, Define, EngineLock,
    ErrorData, Label, MapperType, MarshalError, MemoryFileData, PatchOption, PatchResult, Patcher,
    RomData, SymbolType, WrittenBlock,
};

fn diag(msg: &str, id: i32) -> ErrorData {
    ErrorData::from_raw(
        msg.to_string(),
        msg.to_string(),
        "block".to_string(),
        Some("test.asm".to_string()),
        3,
        None,
        -1,
        id,
    )
}

#[test]
fn rom_from_vec_takes_whole_buffer() {
    let rom = RomData::from_vec(vec![1, 2, 3, 4]);
    assert_eq!(rom.data, vec![1, 2, 3, 4]);
    assert_eq!(rom.length, 4);
    let rom: RomData = vec![0u8; 7].into();
    assert_eq!(rom.length, 7);
}

#[test]
fn rom_new_keeps_logical_length() {
    let rom = RomData::new(vec![0; 16], 0);
    assert_eq!(rom.data.len(), 16);
    assert_eq!(rom.length, 0);
    let empty = RomData::default();
    assert!(empty.data.is_empty());
    assert_eq!(empty.length, 0);
}

#[test]
fn basic_options_hand_back_parts() {
    let options = BasicPatchOptions::new(vec![9u8, 8].into(), "test.asm".to_string());
    let (rom, loc) = options.into_parts();
    assert_eq!(rom.data, vec![9, 8]);
    assert_eq!(rom.length, 2);
    assert_eq!(loc, "test.asm");
}

#[test]
fn default_options_lay_out_empty_block() {
    let params = AdvancedPatchOptions::new()
        .into_params(RomData::new(vec![0; 4], 2), "p.asm".to_string())
        .ok()
        .unwrap();
    assert_eq!(params.buflen, 4);
    assert_eq!(params.romlen, 2);
    assert_eq!(params.patchloc, "p.asm");
    assert!(params.includepaths.is_empty());
    assert_eq!(params.numincludepaths, 0);
    assert!(params.should_reset);
    assert_eq!(params.additional_define_count, 0);
    assert!(params.stdincludesfile.is_none());
    assert!(params.stddefinesfile.is_none());
    assert_eq!(params.warning_setting_count, 0);
    assert_eq!(params.memory_file_count, 0);
    assert!(!params.override_checksum_gen);
    assert!(!params.generate_checksum);
}

#[test]
fn options_accumulate_in_order() {
    let options = AdvancedPatchOptions::new()
        .option(PatchOption::Include("includefiles".into()))
        .option(PatchOption::Include("more".into()))
        .option(PatchOption::Define("test".into(), "$18".into()))
        .option(PatchOption::Warning("Wrelative_path_used".into(), false))
        .option(PatchOption::MemoryFile("test.asm".into(), "lda #$00".into()))
        .option(PatchOption::StdIncludesFile("std.txt".into()))
        .option(PatchOption::StdDefinesFile("defs.txt".into()))
        .option(PatchOption::StdDefinesFile("defs2.txt".into()))
        .option(PatchOption::OverrideChecksumGen(true))
        .option(PatchOption::GenerateChecksum(true))
        .option(PatchOption::ShouldReset(false));
    let params = options
        .into_params(RomData::from_vec(vec![0; 8]), "test.asm".to_string())
        .ok()
        .unwrap();
    assert_eq!(params.includepaths, vec!["includefiles".to_string(), "more".to_string()]);
    assert_eq!(params.numincludepaths, 2);
    assert_eq!(params.additional_defines.len(), 1);
    assert_eq!(params.additional_defines[0].name, "test");
    assert_eq!(params.additional_defines[0].contents, "$18");
    assert_eq!(params.additional_define_count, 1);
    assert_eq!(params.warning_settings[0].warnid, "Wrelative_path_used");
    assert!(!params.warning_settings[0].enabled);
    assert_eq!(params.memory_files[0].filename, "test.asm");
    assert_eq!(params.memory_files[0].data.byte_len(), 8);
    assert_eq!(params.memory_file_count, 1);
    assert_eq!(params.stdincludesfile.as_deref(), Some("std.txt"));
    assert_eq!(params.stddefinesfile.as_deref(), Some("defs2.txt"));
    assert!(params.override_checksum_gen);
    assert!(params.generate_checksum);
    assert!(!params.should_reset);
}

#[test]
fn options_from_list_matches_chain() {
    let params = AdvancedPatchOptions::from(vec![
        PatchOption::Define("a".into(), "1".into()),
        PatchOption::Define("b".into(), "2".into()),
        PatchOption::ShouldReset(false),
    ])
    .options(vec![PatchOption::Include("inc".into())])
    .into_params(RomData::default(), "x.asm".to_string())
    .ok()
    .unwrap();
    let names: Vec<&str> = params.additional_defines.iter().map(|d| d.name.as_str()).collect();
    assert_eq!(names, vec!["a", "b"]);
    assert_eq!(params.includepaths, vec!["inc".to_string()]);
    assert!(!params.should_reset);
}

#[test]
fn nul_in_a_string_is_refused() {
    let bad_loc = AdvancedPatchOptions::new()
        .into_params(RomData::default(), "te\0st.asm".to_string());
    assert!(matches!(bad_loc, Err(MarshalError::InteriorNul)));
    let bad_define = AdvancedPatchOptions::new()
        .option(PatchOption::Define("name".into(), "va\0lue".into()))
        .into_params(RomData::default(), "test.asm".to_string());
    assert!(matches!(bad_define, Err(MarshalError::InteriorNul)));
    let bad_file = AdvancedPatchOptions::new()
        .option(PatchOption::MemoryFile("f\0.asm".into(), vec![0u8, 0].into()))
        .into_params(RomData::default(), "test.asm".to_string());
    assert!(matches!(bad_file, Err(MarshalError::InteriorNul)));
    // binary contents may hold zero bytes: they do not cross as a C string
    let good_file = AdvancedPatchOptions::new()
        .option(PatchOption::MemoryFile("f.bin".into(), vec![0u8, 0].into()))
        .into_params(RomData::default(), "test.asm".to_string());
    assert!(good_file.is_ok());
}

#[test]
fn rom_length_past_32_bits_is_refused() {
    let rom = RomData::new(Vec::new(), 0x8000_0000);
    let r = AdvancedPatchOptions::new().into_params(rom, "test.asm".to_string());
    assert!(matches!(r, Err(MarshalError::TooLarge)));
}

#[test]
fn nul_check_reads_bytes() {
    assert!(is_nul_free("org $008000"));
    assert!(is_nul_free(""));
    assert!(is_nul_free("é"));
    assert!(!is_nul_free("\0"));
    assert!(!is_nul_free("ab\0"));
}

#[test]
fn text_file_length_counts_utf8_bytes() {
    let text: MemoryFileData = "é".into();
    assert_eq!(text.byte_len(), 2);
    let owned: MemoryFileData = String::from("abc").into();
    assert_eq!(owned.byte_len(), 3);
    let bin: MemoryFileData = vec![1u8, 2, 3, 4, 5].into();
    assert_eq!(bin.byte_len(), 5);
}

#[test]
fn successful_patch_takes_reported_length() {
    let rom = RomData::new(vec![0; 16], 0);
    let warnings = vec![diag("relative path used", 1001)];
    match conclude_patch(rom, true, 5, warnings, Vec::new()) {
        PatchResult::Success(d, w) => {
            assert_eq!(d.length, 5);
            assert_eq!(d.data.len(), 16);
            assert_eq!(w.len(), 1);
            assert_eq!(w[0].errid, 1001);
        }
        PatchResult::Failure(_) => panic!("expected success"),
    }
}

#[test]
fn length_past_buffer_is_a_failure() {
    let rom = RomData::new(vec![0; 4], 4);
    let errors = vec![diag("too big", 5000)];
    match conclude_patch(rom, true, 5, Vec::new(), errors) {
        PatchResult::Failure(e) => {
            assert_eq!(e.len(), 1);
            assert_eq!(e[0].errid, 5000);
        }
        PatchResult::Success(_, _) => panic!("expected failure"),
    }
    let rom = RomData::new(vec![0; 4], 4);
    assert!(matches!(conclude_patch(rom, true, -1, Vec::new(), Vec::new()), PatchResult::Failure(_)));
}

#[test]
fn failed_patch_carries_engine_errors() {
    let rom = RomData::new(vec![0; 4], 4);
    let errors = vec![diag("Unknown command.", 5001), diag("second", 5002)];
    match conclude_patch(rom, false, 2, vec![diag("w", 1001)], errors) {
        PatchResult::Failure(e) => {
            assert_eq!(e.len(), 2);
            assert!(!e[0].fullerrdata.is_empty());
            assert_eq!(e[0].errid, 5001);
            assert_eq!(e[1].errid, 5002);
        }
        PatchResult::Success(_, _) => panic!("expected failure"),
    }
}

#[test]
fn settle_keeps_length_on_failure() {
    let (rom, ok) = settle_rom(RomData::new(vec![0; 8], 3), false, 6);
    assert!(!ok);
    assert_eq!(rom.length, 3);
    let (rom, ok) = settle_rom(RomData::new(vec![0; 8], 3), true, 6);
    assert!(ok);
    assert_eq!(rom.length, 6);
    let (rom, ok) = settle_rom(RomData::new(vec![0; 8], 3), true, 8);
    assert!(ok);
    assert_eq!(rom.length, 8);
    let (rom, ok) = settle_rom(RomData::new(vec![0; 8], 3), true, 9);
    assert!(!ok);
    assert_eq!(rom.length, 3);
}

#[test]
fn second_apply_is_refused_until_release() {
    let mut gate = ApplyGate::new();
    assert!(gate.is_available());
    let first = gate.try_acquire();
    assert!(first.is_ok());
    assert!(!gate.is_available());
    let second = gate.try_acquire();
    assert!(matches!(second, Err(ConcurrentApplyError)));
    assert!(!gate.is_available());
    gate.release(first.unwrap());
    assert!(gate.is_available());
    let third = gate.try_acquire();
    assert!(third.is_ok());
}

#[test]
fn patcher_hands_out_its_settings() {
    let mut gate = ApplyGate::new();
    let mut patcher = Patcher::new();
    patcher.option(PatchOption::MemoryFile("test.asm".into(), "nop".into()));
    patcher.option(PatchOption::ShouldReset(false));
    let patcher2 = patcher.clone();
    let (options, permit) = patcher.begin_apply(&mut gate).ok().unwrap();
    let params = options.into_params(RomData::default(), "test.asm".to_string()).ok().unwrap();
    assert_eq!(params.memory_file_count, 1);
    assert!(!params.should_reset);
    assert!(patcher2.begin_apply(&mut gate).is_err());
    gate.release(permit);

    let (options, _permit) = Patcher::default().begin_apply(&mut gate).ok().unwrap();
    let params = options.into_params(RomData::default(), "test.asm".to_string()).ok().unwrap();
    assert!(params.should_reset);
    assert_eq!(params.memory_file_count, 0);

    let mut gate = ApplyGate::new();
    let mut replaced = Patcher::new();
    replaced.options(AdvancedPatchOptions::new().option(PatchOption::Include("a".into())));
    let (options, _permit) = replaced.begin_apply(&mut gate).ok().unwrap();
    let params = options.into_params(RomData::default(), "test.asm".to_string()).ok().unwrap();
    assert_eq!(params.includepaths, vec!["a".to_string()]);
}

#[test]
fn concurrent_apply_error_explains_itself() {
    let msg = ConcurrentApplyError.message();
    assert!(msg.starts_with("Cannot call `Patcher::apply` while another `ApplyResult` is alive"));
}

#[test]
fn mapper_codes_follow_engine_order() {
    assert_eq!(MapperType::from_raw(0), None);
    assert_eq!(MapperType::from_raw(1), Some(MapperType::lorom));
    assert_eq!(MapperType::from_raw(2), Some(MapperType::hirom));
    assert_eq!(MapperType::from_raw(6), Some(MapperType::exlorom));
    assert_eq!(MapperType::from_raw(8), Some(MapperType::norom));
    assert_eq!(MapperType::from_raw(9), None);
    assert_eq!(MapperType::from_raw(-3), None);
}

#[test]
fn label_sentinel_reads_as_absent() {
    assert_eq!(label_value_from_raw(-1), None);
    assert_eq!(label_value_from_raw(0x0D8000), Some(0x0D8000));
    assert_eq!(label_value_from_raw(0), Some(0));
}

#[test]
fn symbol_type_names() {
    assert_eq!(SymbolType::WLA.name(), "wla");
    assert_eq!(SymbolType::NoCash.name(), "nocash");
}

#[test]
fn records_convert_field_for_field() {
    let e = ErrorData::from_raw(
        "full".into(),
        "raw".into(),
        "blk".into(),
        None,
        7,
        Some("caller.asm".into()),
        9,
        1001,
    );
    assert_eq!(e.fullerrdata, "full");
    assert_eq!(e.rawerrdata, "raw");
    assert_eq!(e.block, "blk");
    assert_eq!(e.filename, "");
    assert_eq!(e.line, 7);
    assert_eq!(e.callerfilename, "caller.asm");
    assert_eq!(e.callerline, 9);
    assert_eq!(e.errid, 1001);
    let d = Define::from_raw("test".into(), "$18".into());
    assert_eq!(d.name, "test");
    assert_eq!(d.contents, "$18");
    let l = Label::from_raw("label".into(), 0x8000);
    assert_eq!(l.name, "label");
    assert_eq!(l.location, 0x8000);
    let b = WrittenBlock::from_raw(0, 0x808000, 5);
    assert_eq!(b, WrittenBlock { pcoffset: 0, snesoffset: 0x808000, numbytes: 5 });
}

#[test]
fn locks_run_the_closure() {
    assert_eq!(with_asar_lock(|| 41 + 1), 42);
    let lock = EngineLock::new(true);
    assert!(lock.thread_safe());
    let nested = lock.run(|| lock.run(|| 7));
    assert_eq!(nested, 7);
    let plain = EngineLock::new(false);
    assert!(!plain.thread_safe());
    assert_eq!(plain.run(|| "done"), "done");
}
