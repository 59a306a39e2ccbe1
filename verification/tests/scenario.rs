//! An end-to-end animation scenario: interpolating between two colours over
//! three steps and encoding each frame as the ranged write an RGB fixture
//! at channel 0 would issue.

use udmx::command::set_channels_request;

#[derive(Clone, Copy)]
struct Color {
    r: u8,
    g: u8,
    b: u8,
}

fn lerp(from: Color, to: Color, t: f32) -> Color {
    let t = t.max(0.0).min(1.0);
    Color {
        r: (from.r as f32 * (1.0 - t) + to.r as f32 * t) as u8,
        g: (from.g as f32 * (1.0 - t) + to.g as f32 * t) as u8,
        b: (from.b as f32 * (1.0 - t) + to.b as f32 * t) as u8,
    }
}

#[test]
fn three_step_fade_from_red_to_green() {
    let from = Color { r: 255, g: 0, b: 0 };
    let to = Color { r: 0, g: 255, b: 0 };
    let steps = 3;

    let mut requests = Vec::new();
    for step in 0..steps {
        let t = step as f32 / steps as f32;
        let c = lerp(from, to, t);
        let req = set_channels_request(0, &[c.r, c.g, c.b]).unwrap().unwrap();
        requests.push(req);
    }

    assert_eq!(requests.len(), 3);
    for req in &requests {
        assert_eq!(req.request, 2);
        assert_eq!(req.value, 3);
        assert_eq!(req.index, 0);
        assert_eq!(req.data.len(), 3);
        // blue stays off throughout the fade
        assert_eq!(req.data[2], 0);
    }
    // the first frame is the starting colour
    assert_eq!(requests[0].data, vec![255, 0, 0]);
    // red falls monotonically, green rises monotonically
    for pair in requests.windows(2) {
        assert!(pair[1].data[0] < pair[0].data[0]);
        assert!(pair[1].data[1] > pair[0].data[1]);
    }
}
