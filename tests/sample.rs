use audio_stream::sample::fill_buffer;
use audio_stream::sample::output_sample;
use audio_stream::sample::OutputSample;

#[test]
fn silence_per_format() {
    assert_eq!(output_sample::<i8>(None), 0);
    assert_eq!(output_sample::<i16>(None), 0);
    assert_eq!(output_sample::<i32>(None), 0);
    assert_eq!(output_sample::<i64>(None), 0);
    assert_eq!(output_sample::<u8>(None), 127);
    assert_eq!(output_sample::<u16>(None), 32_767);
    assert_eq!(output_sample::<u32>(None), 2_147_483_647);
    assert_eq!(output_sample::<u64>(None), 9_223_372_036_854_775_807);
    assert_eq!(<u8 as OutputSample>::silence(), u8::MAX / 2);
}

#[test]
fn pulled_samples_pass_through() {
    assert_eq!(output_sample(Some(-5i16)), -5);
    assert_eq!(output_sample(Some(200u8)), 200);
}

#[test]
fn underrun_fills_every_slot_with_silence() {
    let mut data = vec![9u16; 4];
    fill_buffer(&mut data, &vec![Some(1), None, Some(3), None]);
    assert_eq!(data, vec![1, 32_767, 3, 32_767]);
    let mut data = vec![9i32; 3];
    fill_buffer(&mut data, &vec![None, None, None]);
    assert_eq!(data, vec![0, 0, 0]);
}
