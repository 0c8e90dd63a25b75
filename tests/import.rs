use overtls_manager::forms::{node_from_form, NodeForm};
use overtls_manager::import::{
    bgra_to_rgba, config_from_image, decode_qr, luma_at, node_from_text, screenshot_qr_import,
    ImportError,
};
use overtls_manager::node::{NodeProfile, TunnelPath};
use overtls_manager::nodes::{apply_dialog_result, selected_node};

fn outside_config(n: &NodeProfile) -> overtls::Config {
    let c = n.client.as_ref().unwrap();
    let mut client = overtls::ClientConfig::default();
    client.server_host = c.server_host.clone();
    client.server_port = c.server_port;
    client.server_domain = c.server_domain.clone();
    client.disable_tls = c.disable_tls;
    client.dangerous_mode = c.dangerous_mode;
    overtls::Config {
        remarks: n.remarks.clone(),
        tunnel_path: match &n.tunnel_path {
            TunnelPath::Single(s) => overtls::TunnelPath::Single(s.clone()),
            TunnelPath::Multiple(v) => overtls::TunnelPath::Multiple(v.clone()),
        },
        client: Some(client),
        ..overtls::Config::default()
    }
}

fn profile_a() -> NodeProfile {
    node_from_form(NodeForm {
        remarks: "A".to_string(),
        tunnel_path: "/tunnel/".to_string(),
        disable_tls: false,
        client_id: String::new(),
        server_host: "example.com".to_string(),
        server_port: "443".to_string(),
        server_domain: String::new(),
        cafile: String::new(),
        dangerous_mode: true,
    })
}

/// A BGRA screenshot of `text` as a QR code, four pixels per module.
fn qr_screenshot(text: &str) -> (u32, u32, Vec<u8>) {
    let code = qrcode::QrCode::new(text.as_bytes()).unwrap();
    let modules = code.width();
    let colors = code.to_colors();
    let scale = 4;
    let quiet = 4;
    let side = (modules + 2 * quiet) * scale;
    let mut data = Vec::with_capacity(side * side * 4);
    for y in 0..side {
        for x in 0..side {
            let (mx, my) = (x / scale, y / scale);
            let dark = mx >= quiet
                && my >= quiet
                && mx < quiet + modules
                && my < quiet + modules
                && colors[(my - quiet) * modules + (mx - quiet)] == qrcode::Color::Dark;
            let v = if dark { 0 } else { 255 };
            data.extend_from_slice(&[v, v, v, 255]);
        }
    }
    (side as u32, side as u32, data)
}

#[test]
fn pixels_swap_blue_and_red() {
    let data = vec![1, 2, 3, 4, 5, 6, 7, 8];
    assert_eq!(bgra_to_rgba(&data, 4), vec![3, 2, 1, 4, 7, 6, 5, 8]);
    let wide = vec![1, 2, 3, 4, 9, 5, 6, 7, 8, 9, 1, 1];
    assert_eq!(bgra_to_rgba(&wide, 5), vec![3, 2, 1, 4, 7, 6, 5, 8]);
    assert_eq!(bgra_to_rgba(&data, 3), Vec::<u8>::new());
    assert_eq!(bgra_to_rgba(&vec![1, 2, 3], 4), Vec::<u8>::new());
}

#[test]
fn export_import_round_trip() {
    let exported = outside_config(&profile_a());
    let json = serde_json::to_string_pretty(&exported).unwrap();
    let back = node_from_text(&json).unwrap();
    assert_eq!(back, exported);
}

#[test]
fn pasted_url_is_imported() {
    let url = outside_config(&profile_a()).generate_ssr_url().unwrap();
    let cfg = node_from_text(&url).unwrap();
    assert_eq!(cfg.client.unwrap().server_host, "example.com");
    assert_eq!(cfg.remarks.as_deref(), Some("A"));
}

#[test]
fn pasted_garbage_is_refused() {
    assert_eq!(node_from_text("hello").err(), Some(ImportError::NotAConfig));
    assert_eq!(node_from_text("").err(), Some(ImportError::NotAConfig));
}

#[test]
fn screenshot_with_node_qr_code_imports_it() {
    let url = outside_config(&profile_a()).generate_ssr_url().unwrap();
    let (w, h, data) = qr_screenshot(&url);
    let cfg = screenshot_qr_import(w, h, 4, &data).unwrap();
    let client = cfg.client.unwrap();
    assert_eq!(client.server_host, "example.com");
    assert_eq!(client.server_port, 443);
}

#[test]
fn screenshot_errors() {
    let blank = vec![255u8; 64 * 64 * 4];
    assert_eq!(screenshot_qr_import(64, 64, 4, &blank).err(), Some(ImportError::NoQrCode));
    assert_eq!(screenshot_qr_import(65, 64, 4, &blank).err(), Some(ImportError::BadImage));
    let (w, h, data) = qr_screenshot("not a node");
    assert_eq!(screenshot_qr_import(w, h, 4, &data).err(), Some(ImportError::BadUrl));
    let rgba = bgra_to_rgba(&data, 4);
    assert_eq!(config_from_image(w, h, rgba).err(), Some(ImportError::BadUrl));
}

#[test]
fn example_add_then_show_qr_url() {
    let mut nodes: Vec<NodeProfile> = Vec::new();
    apply_dialog_result(&mut nodes, None, profile_a());
    assert_eq!(nodes.len(), 1);
    let selected = selected_node(&nodes, Some(0)).unwrap();
    let url = outside_config(selected).generate_ssr_url().unwrap();
    assert!(!url.is_empty());
    assert!(url.starts_with("ssr://"));
    let back = node_from_text(&url).unwrap();
    let client = back.client.unwrap();
    assert_eq!(client.server_host, "example.com");
    assert_eq!(client.server_port, 443);
}

#[test]
fn qr_text_is_decoded() {
    let (w, h, data) = qr_screenshot("hello, node");
    let rgba = bgra_to_rgba(&data, 4);
    assert_eq!(decode_qr(w, h, rgba).unwrap(), "hello, node");
    assert_eq!(decode_qr(2, 2, vec![0; 15]).err(), Some(ImportError::BadImage));
}

#[test]
fn gray_pixel_lookup() {
    let luma = vec![1, 2, 3, 4, 5, 6];
    assert_eq!(luma_at(&luma, 3, 0, 0), 1);
    assert_eq!(luma_at(&luma, 3, 2, 1), 6);
    assert_eq!(luma_at(&luma, 3, 3, 0), 255);
    assert_eq!(luma_at(&luma, 3, 0, 2), 255);
    assert_eq!(luma_at(&luma, usize::MAX, 1, usize::MAX), 255);
}
