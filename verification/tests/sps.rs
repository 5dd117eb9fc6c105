//! End-to-end sequence parameter set decoding on real-world payloads, the
//! derived queries, and the error paths.

use h265_reader::Context;
use h265_reader::nal::pps::ParamSetId;
use h265_reader::nal::pps::ParamSetIdError;
use h265_reader::nal::pps::PicParameterSet;
use h265_reader::nal::pps::PpsError;
use h265_reader::nal::sps::parse_sequence_parameter_set;
use h265_reader::nal::sps::profile::Profile;
use h265_reader::nal::sps::profile::ProfileTierLevel;
use h265_reader::nal::sps::profile::SubLayerProfileLevel;
use h265_reader::nal::sps::profile::Tier;
use h265_reader::nal::sps::rps::ShortTermRef;
use h265_reader::nal::sps::rps::ShortTermRefPicSet;
use h265_reader::nal::sps::vui::AspectRatioInfo;
use h265_reader::nal::sps::ChromaFormat;
use h265_reader::nal::sps::ChromaInfo;
use h265_reader::nal::sps::SeqParameterSet;
use h265_reader::nal::sps::SpsError;
use h265_reader::nal::sps::Window;
use h265_reader::rbsp::BitReader;
use h265_reader::rbsp::BitReaderError;

/// A 720x576 hardware encode: 736 coded luma samples wide, cropped by a
/// conformance window, extended aspect ratio 64:45, one short-term set.
fn sample_720x576() -> Vec<u8> {
    vec![
        0x01, 0x01, 0x60, 0x00, 0x00, 0x00, 0xb0, 0x00, 0x00, 0x00, 0x00, 0x00, 0x5d, 0xa0, 0x05,
        0xc2, 0x00, 0x90, 0x71, 0x3e, 0x87, 0xee, 0x46, 0xd1, 0x2e, 0x3f, 0xf0, 0x04, 0x00, 0x02,
        0xd0, 0x10, 0x00, 0x00, 0x00, 0x10, 0x00, 0x00, 0x01, 0x96, 0x00, 0x00, 0x00, 0xe0, 0x00,
        0x49, 0x3e, 0x00, 0x0b, 0xb8, 0x48,
    ]
}

/// An interlaced 1080i encode with explicit scaling-list data and bitstream
/// restrictions.
fn sample_1080i() -> Vec<u8> {
    vec![
        0x01, 0x01, 0x40, 0x00, 0x00, 0x00, 0x40, 0x00, 0x00, 0x00, 0x00, 0x00, 0x7b, 0xa0, 0x03,
        0xc0, 0x80, 0x22, 0x1f, 0x79, 0xe9, 0x6e, 0x44, 0xa1, 0x7f, 0xf8, 0x00, 0x08, 0x00, 0x13,
        0x50, 0x10, 0x10, 0x1e, 0xd0, 0x00, 0x00, 0x00, 0x10, 0x00, 0x00, 0x03, 0x25, 0x08, 0xff,
        0xde, 0x10, 0x00, 0x16, 0xe3, 0x60, 0x00, 0x05, 0xdd, 0x77, 0xdf, 0x08, 0x04, 0x10,
    ]
}

/// A 1080p encode whose short-term RPS collection uses inter-set prediction.
fn sample_1080p_rps_prediction() -> Vec<u8> {
    vec![
        0x01, 0x01, 0x60, 0x00, 0x00, 0x00, 0x90, 0x00, 0x00, 0x00, 0x00, 0x00, 0x7b, 0xa0, 0x03,
        0xc0, 0x80, 0x10, 0xe5, 0x89, 0x93, 0x92, 0x4c, 0x8a, 0x49, 0x24, 0x93, 0xe9, 0xfa, 0x7a,
        0xde, 0x02, 0x02, 0x00, 0x00, 0x00, 0x02, 0x00, 0x00, 0x00, 0x64, 0xc3, 0x49, 0x4f, 0x3c,
        0x00, 0x1e, 0x84, 0x80, 0x03, 0xd0, 0x91,
    ]
}

fn fps_of(sps: &SeqParameterSet) -> Option<f64> {
    let vui = sps.vui_parameters.as_ref()?;
    let ti = vui.timing_info.as_ref()?;
    Some((ti.time_scale as f64) / (ti.num_units_in_tick as f64))
}

#[test]
fn end_to_end_720x576() {
    let data = sample_720x576();
    let sps = parse_sequence_parameter_set(&data).unwrap();
    assert_eq!(sps.sps_video_parameter_set_id.id(), 0);
    assert_eq!(sps.sps_max_sub_layers_minus1, 0);
    assert!(sps.sps_temporal_id_nesting);
    let lp = sps.general_layer_profile().unwrap();
    assert_eq!(lp.profile_idc, 1);
    assert!(lp.profile_compatibility_flag[1]);
    assert!(lp.progressive_source_flag);
    assert!(lp.frame_only_constraint_flag);
    assert_eq!(sps.profile_tier_level.general_level_idc, 93);
    assert_eq!(sps.general_profile().unwrap(), Profile::Main);
    assert_eq!(sps.general_tier().unwrap(), Tier::Main);
    assert_eq!(sps.id().id(), 0);
    assert_eq!(sps.chroma_info.chroma_format, ChromaFormat::YUV420);
    assert_eq!(sps.pic_width_in_luma_samples, 736);
    assert_eq!(sps.pic_height_in_luma_samples, 576);
    assert_eq!(
        sps.conformance_window,
        Some(Window {
            win_left_offset: 0,
            win_right_offset: 8,
            win_top_offset: 0,
            win_bottom_offset: 0,
        })
    );
    assert_eq!(
        sps.st_ref_pic_sets,
        vec![ShortTermRefPicSet {
            negative_pics_s0: vec![ShortTermRef {
                delta_poc_minus1: 0,
                used_by_curr_pic_flag: true,
            }],
            positive_pics_s1: vec![],
        }]
    );
    let vui = sps.vui_parameters.as_ref().unwrap();
    assert_eq!(vui.aspect_ratio_info, Some(AspectRatioInfo::Extended(64, 45)));
    let ti = vui.timing_info.as_ref().unwrap();
    assert_eq!(ti.num_units_in_tick, 1);
    assert_eq!(ti.time_scale, 25);
    assert_eq!(sps.pixel_dimensions().unwrap(), (720, 576));
    assert_eq!(fps_of(&sps), Some(25.0));
}

#[test]
fn end_to_end_1080i() {
    let data = sample_1080i();
    let sps = parse_sequence_parameter_set(&data).unwrap();
    assert_eq!(sps.pic_width_in_luma_samples, 1920);
    assert_eq!(sps.pic_height_in_luma_samples, 544);
    assert_eq!(sps.pixel_dimensions().unwrap(), (1920, 540));
    assert!(sps.scaling_list.is_some());
    assert!(sps.sps_termporal_mvp_enabled);
    assert!(sps.strong_intra_smoothing_enabled);
    let vui = sps.vui_parameters.as_ref().unwrap();
    assert_eq!(vui.aspect_ratio_info, Some(AspectRatioInfo::Extended(1, 2)));
    assert!(vui.field_seq_flag);
    let vst = vui.video_signal_type.as_ref().unwrap();
    let cd = vst.colour_description.as_ref().unwrap();
    assert_eq!(cd.colour_primaries, 1);
    assert_eq!(cd.transfer_characteristics, 1);
    assert_eq!(cd.matrix_coeffs, 1);
    let br = vui.bitstream_restrictions.as_ref().unwrap();
    assert_eq!(br.log2_max_mv_length_horizontal, 15);
    assert_eq!(br.log2_max_mv_length_vertical, 15);
    assert_eq!(fps_of(&sps), Some(50.0));
}

#[test]
fn end_to_end_rps_prediction() {
    let data = sample_1080p_rps_prediction();
    let sps = parse_sequence_parameter_set(&data).unwrap();
    assert_eq!(sps.pic_width_in_luma_samples, 1920);
    assert_eq!(sps.pic_height_in_luma_samples, 1080);
    assert_eq!(sps.pixel_dimensions().unwrap(), (1920, 1080));
    assert_eq!(fps_of(&sps), Some(50.0));
    let expected = vec![
        ShortTermRefPicSet {
            negative_pics_s0: vec![
                ShortTermRef { delta_poc_minus1: 3, used_by_curr_pic_flag: true },
                ShortTermRef { delta_poc_minus1: 3, used_by_curr_pic_flag: true },
                ShortTermRef { delta_poc_minus1: 3, used_by_curr_pic_flag: true },
            ],
            positive_pics_s1: vec![],
        },
        ShortTermRefPicSet {
            negative_pics_s0: vec![ShortTermRef {
                delta_poc_minus1: -2,
                used_by_curr_pic_flag: true,
            }],
            positive_pics_s1: vec![ShortTermRef {
                delta_poc_minus1: 2,
                used_by_curr_pic_flag: false,
            }],
        },
        ShortTermRefPicSet {
            negative_pics_s0: vec![ShortTermRef {
                delta_poc_minus1: -2,
                used_by_curr_pic_flag: false,
            }],
            positive_pics_s1: vec![],
        },
        ShortTermRefPicSet { negative_pics_s0: vec![], positive_pics_s1: vec![] },
    ];
    assert_eq!(sps.st_ref_pic_sets, expected);
    assert_eq!(sps.long_term_ref_pics_sps, Some(vec![]));
}

#[test]
fn reparse_yields_equal_structures() {
    let data = sample_720x576();
    let first = parse_sequence_parameter_set(&data).unwrap();
    let second = parse_sequence_parameter_set(&data).unwrap();
    assert_eq!(first, second);
}

#[test]
fn trailing_data_rejected() {
    let mut data = sample_720x576();
    data.push(0x55);
    let res = parse_sequence_parameter_set(&data);
    assert_eq!(
        res,
        Err(SpsError::RbspReaderError(BitReaderError::TrailingData {
            name: "rbsp_trailing_bits",
        }))
    );
}

#[test]
fn truncated_payload_rejected() {
    let res = parse_sequence_parameter_set(&[]);
    assert!(matches!(res, Err(SpsError::RbspReaderError(BitReaderError::OutOfBits { .. }))));
    let data = sample_720x576();
    let res = parse_sequence_parameter_set(&data[..10]);
    assert!(matches!(res, Err(SpsError::RbspReaderError(BitReaderError::OutOfBits { .. }))));
}

#[test]
fn unsupported_extension_rejected() {
    // the same payload with the extension-present and range-extension bits
    // set in place of the original stop-bit padding.
    let mut data = sample_720x576();
    let last = data.len() - 1;
    data[last] = 0x58;
    data.push(0x00);
    let res = parse_sequence_parameter_set(&data);
    assert_eq!(res, Err(SpsError::Unimplemented("sps_range_extension")));
}

#[test]
fn out_of_range_seq_parameter_set_id_rejected() {
    // vps id 0, no sub-layers, nesting unset, an all-zero profile/tier/level
    // block, then seq_parameter_set_id coded as 16.
    let mut data = vec![0x00u8];
    data.extend(vec![0x00; 12]);
    data.push(0x08);
    data.push(0x80);
    let res = parse_sequence_parameter_set(&data);
    assert_eq!(res, Err(SpsError::BadSeqParamSetId(ParamSetIdError::IdTooLarge(16))));
}

#[test]
fn bounded_identifier_boundaries() {
    let id = ParamSetId::<15>::from_u32(15).unwrap();
    assert_eq!(id.id(), 15);
    assert_eq!(ParamSetId::<15>::from_u32(16), Err(ParamSetIdError::IdTooLarge(16)));
    let id = ParamSetId::<63>::from_u32(63).unwrap();
    assert_eq!(id.id(), 63);
    assert_eq!(ParamSetId::<63>::from_u32(64), Err(ParamSetIdError::IdTooLarge(64)));
    assert_eq!(ParamSetId::<15>::from_u32(0).unwrap().id(), 0);
}

fn empty_ptl() -> ProfileTierLevel {
    let mut sub_layers = Vec::new();
    for _ in 0..7 {
        sub_layers.push(SubLayerProfileLevel { profile: None, level_idc: None });
    }
    ProfileTierLevel { general_profile: None, general_level_idc: 0, sub_layers }
}

fn minimal_sps() -> SeqParameterSet {
    SeqParameterSet {
        sps_video_parameter_set_id: ParamSetId::from_u32(0).unwrap(),
        sps_max_sub_layers_minus1: 0,
        sps_temporal_id_nesting: false,
        profile_tier_level: empty_ptl(),
        sps_seq_parameter_set_id: ParamSetId::from_u32(0).unwrap(),
        chroma_info: ChromaInfo {
            chroma_format: ChromaFormat::YUV420,
            separate_colour_plane_flag: false,
        },
        pic_width_in_luma_samples: 64,
        pic_height_in_luma_samples: 64,
        conformance_window: Some(Window {
            win_left_offset: 20,
            win_right_offset: 20,
            win_top_offset: 20,
            win_bottom_offset: 20,
        }),
        bit_depth_luma_minus8: 0,
        bit_depth_chroma_minus8: 0,
        log2_max_pic_order_cnt_lsb_minus4: 0,
        sub_layering_ordering_info: vec![],
        log2_min_luma_coding_block_size_minus3: 0,
        log2_diff_max_min_luma_coding_block_size: 0,
        log2_min_luma_transform_block_size_minus2: 0,
        log2_diff_max_min_luma_transform_block_size: 0,
        max_transform_hierarchy_depth_inter: 0,
        max_transform_hierarchy_depth_intra: 0,
        scaling_list: None,
        amp_enabled: false,
        sample_adaptive_offset_enabled: false,
        pcm: None,
        st_ref_pic_sets: vec![],
        long_term_ref_pics_sps: None,
        sps_termporal_mvp_enabled: false,
        strong_intra_smoothing_enabled: false,
        vui_parameters: None,
        sps_extension: None,
    }
}

#[test]
fn crop_removes_all_pixels() {
    // 4:2:0 subsampling doubles the 20-sample offsets, so 80 samples would
    // be cropped from each 64-sample axis: a typed error, not an underflow.
    let sps = minimal_sps();
    let dim = sps.pixel_dimensions();
    assert!(matches!(dim, Err(SpsError::FieldValueTooLarge { .. })));
}

#[test]
fn crop_exact_boundary_is_accepted() {
    let mut sps = minimal_sps();
    sps.conformance_window = Some(Window {
        win_left_offset: 16,
        win_right_offset: 16,
        win_top_offset: 0,
        win_bottom_offset: 32,
    });
    assert_eq!(sps.pixel_dimensions().unwrap(), (0, 0));
}

#[test]
fn invalid_chroma_format_rejected_in_cropping() {
    let mut sps = minimal_sps();
    sps.chroma_info.chroma_format = ChromaFormat::Invalid(5);
    assert_eq!(
        sps.pixel_dimensions(),
        Err(SpsError::FieldValueTooLarge { name: "chroma_format_idc", value: 5 })
    );
}

#[test]
fn rps_prediction_from_known_delta() {
    // two sets: the first directly coded with one negative entry, the
    // second predicting from it with delta_rps -1 and all flags set. The
    // derived set keeps only the boundary term: S0 = [(-2, used)], S1 = [].
    let data = [0x6b, 0xffu8];
    let mut r = BitReader::new(&data);
    let sets = ShortTermRefPicSet::read_with_count(&mut r).unwrap();
    assert_eq!(sets.len(), 2);
    assert_eq!(
        sets[0],
        ShortTermRefPicSet {
            negative_pics_s0: vec![ShortTermRef {
                delta_poc_minus1: 0,
                used_by_curr_pic_flag: true,
            }],
            positive_pics_s1: vec![],
        }
    );
    assert_eq!(
        sets[1],
        ShortTermRefPicSet {
            negative_pics_s0: vec![ShortTermRef {
                delta_poc_minus1: -2,
                used_by_curr_pic_flag: true,
            }],
            positive_pics_s1: vec![],
        }
    );
}

#[test]
fn rps_out_of_range_reference_rejected() {
    // prediction requested with delta_idx_minus1 = 5 while only sets below
    // index 2 could exist: a typed error, not a crash.
    let data = [0x99u8];
    let mut r = BitReader::new(&data);
    let prev: Vec<ShortTermRefPicSet> = vec![];
    let res = ShortTermRefPicSet::read(&mut r, 2, 2, &prev);
    assert_eq!(res, Err(SpsError::InvalidReferenceIndex(5)));
}

#[test]
fn context_stores_and_looks_up_by_id() {
    let data = sample_720x576();
    let sps = parse_sequence_parameter_set(&data).unwrap();
    let mut ctx = Context::new();
    assert!(ctx.lookup_sps(ParamSetId::from_u32(0).unwrap()).is_none());
    ctx.insert_sps(sps.clone());
    let found = ctx.lookup_sps(ParamSetId::from_u32(0).unwrap()).unwrap();
    assert_eq!(*found, sps);
    assert!(ctx.lookup_sps(ParamSetId::from_u32(1).unwrap()).is_none());
}

#[test]
fn pps_parsing_is_an_explicit_gap() {
    let ctx = Context::default();
    let data = [0x40u8, 0x01];
    let res = PicParameterSet::from_bits(&ctx, BitReader::new(&data));
    assert_eq!(res, Err(PpsError::Unimplemented));
}
