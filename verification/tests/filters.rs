use signals::filters::FilterFrequencies;

#[test]
fn pass_band_is_a_plain_value() {
    let band = FilterFrequencies::Bandpass200_350;
    let copy = band;
    assert_eq!(band, copy);
    assert_eq!(format!("{band:?}"), "Bandpass200_350");
}
