//! The network visualizer: an SVG drawing of a network's architecture and
//! weights, built entirely from verified layout arithmetic, verified
//! decimal formatting, and the trusted scalar operations.

use vstd::prelude::*;
use vstd::string::StringExecFns;
use crate::fmt::{fmt_usize, fmt_u64, fmt_fixed2, fmt_fixed4, dec_str, fixed_str, pad2, pad4, mag_of};
use crate::network::Network;
use crate::scalar::{
    abs_scalar, mul_scalar, sub_scalar, div_scalar, trunc_scalar, negative_scalar,
    abs_bits, prod_bits, diff_bits, quot_bits, trunc_of, is_negative_bits, B_HALF,
};

verus! {

/// Bit pattern of 200.0, the color-intensity scale.
pub const B_TWO_HUNDRED: u64 = 0x4069_0000_0000_0000;

/// Bit pattern of 300.0, the line-thickness scale in hundredths.
pub const B_THREE_HUNDRED: u64 = 0x4072_C000_0000_0000;

/// Bit pattern of 10000.0, the weight-label scale in ten-thousandths.
pub const B_TEN_THOUSAND: u64 = 0x40C3_8800_0000_0000;

/// Bit pattern of positive infinity: the starting point of the running
/// minimum of absolute weights.
pub const B_INF: u64 = 0x7FF0_0000_0000_0000;

/// The minimum of the absolute values of the first `n` scalars, compared
/// as bit patterns (for non-negative values, bit-pattern order is value
/// order), starting from positive infinity.
pub open spec fn min_abs_upto(d: Seq<u64>, n: int) -> u64
    decreases n,
{
    if n <= 0 {
        B_INF
    } else {
        let p = min_abs_upto(d, n - 1);
        let a = abs_bits(d[n - 1]);
        if a < p {
            a
        } else {
            p
        }
    }
}

/// The maximum of the absolute values of the first `n` scalars, compared
/// as bit patterns, starting from zero.
pub open spec fn max_abs_upto(d: Seq<u64>, n: int) -> u64
    decreases n,
{
    if n <= 0 {
        0u64
    } else {
        let p = max_abs_upto(d, n - 1);
        let a = abs_bits(d[n - 1]);
        if a > p {
            a
        } else {
            p
        }
    }
}

/// The normalized magnitude of one weight within a layer's range:
/// `(|w| - min) / (max - min)`, or one half when the range is degenerate.
pub open spec fn norm_bits(wa: u64, mn: u64, mx: u64) -> u64 {
    if mx > mn {
        quot_bits(diff_bits(wa, mn), diff_bits(mx, mn))
    } else {
        B_HALF
    }
}

/// The color intensity of a normalized magnitude: its product with 200,
/// truncated and clamped to [0, 200], plus 55.
pub open spec fn intensity_of(norm: u64) -> int {
    let t = trunc_of(prod_bits(norm, B_TWO_HUNDRED));
    let c: int = if t < 0 {
        0
    } else if t > 200 {
        200
    } else {
        t as int
    };
    c + 55
}

/// The line thickness of a normalized magnitude, in hundredths: one half
/// plus three times the magnitude, truncated and clamped to [50, 350].
pub open spec fn thick100_of(norm: u64) -> int {
    let t = trunc_of(prod_bits(norm, B_THREE_HUNDRED));
    let c: int = if t < 0 {
        0
    } else if t > 300 {
        300
    } else {
        t as int
    };
    c + 50
}

/// The color of a weight line: a blue gradient for non-negative weights,
/// a red gradient for negative ones, each graded by the intensity.
pub open spec fn color_spec(w: u64, norm: u64) -> Seq<char> {
    if !is_negative_bits(w) {
        "rgb(55, "@ + dec_str(intensity_of(norm) as nat) + ", 255)"@
    } else {
        "rgb(255, "@ + dec_str(intensity_of(norm) as nat) + ", "@ + dec_str(
            intensity_of(norm) as nat,
        ) + ")"@
    }
}

/// Computes [`norm_bits`].
fn norm_scalar(wa: u64, mn: u64, mx: u64) -> (r: u64)
    ensures
        r == norm_bits(wa, mn, mx),
{
    if mx > mn {
        div_scalar(sub_scalar(wa, mn), sub_scalar(mx, mn))
    } else {
        B_HALF
    }
}

/// Computes [`intensity_of`].
fn intensity_scalar(norm: u64) -> (r: u64)
    ensures
        r == intensity_of(norm),
        55 <= r <= 255,
{
    let t = trunc_scalar(mul_scalar(norm, B_TWO_HUNDRED));
    let c: u64 = if t < 0 {
        0
    } else if t > 200 {
        200
    } else {
        t as u64
    };
    c + 55
}

/// Computes [`thick100_of`].
fn thick100_scalar(norm: u64) -> (r: u64)
    ensures
        r == thick100_of(norm),
        50 <= r <= 350,
{
    let t = trunc_scalar(mul_scalar(norm, B_THREE_HUNDRED));
    let c: u64 = if t < 0 {
        0
    } else if t > 300 {
        300
    } else {
        t as u64
    };
    c + 50
}

/// Computes [`color_spec`].
fn color_svg(w: u64, norm: u64) -> (r: String)
    ensures
        r@ == color_spec(w, norm),
{
    let i = intensity_scalar(norm);
    if !negative_scalar(w) {
        let mut s = String::from_str("rgb(55, ");
        s.append(fmt_u64(i).as_str());
        s.append(", 255)");
        proof {
            assert(s@ =~= color_spec(w, norm));
        }
        s
    } else {
        let mut s = String::from_str("rgb(255, ");
        s.append(fmt_u64(i).as_str());
        s.append(", ");
        s.append(fmt_u64(i).as_str());
        s.append(")");
        proof {
            assert(s@ =~= color_spec(w, norm));
        }
        s
    }
}

/// The weight label in ten-thousandths: the weight scaled by 10000 and
/// truncated.
pub open spec fn wlabel_of(w: u64) -> i128 {
    trunc_of(prod_bits(w, B_TEN_THOUSAND))
}

/// Formats a weight to four fractional digits: [`fmt_fixed4`] of
/// [`wlabel_of`].
fn weight_label(w: u64) -> (r: String)
    ensures
        r@ == fixed_str(
            wlabel_of(w) as int,
            10000,
            pad4((mag_of(wlabel_of(w) as int) % 10000) as nat),
        ),
{
    fmt_fixed4(trunc_scalar(mul_scalar(w, B_TEN_THOUSAND)))
}

/// Generates the SVG visualization of a network: every weight as a line
/// whose color and thickness grade its magnitude within its layer, every
/// neuron as a circle titled with its bias, and a legend. The canvas must
/// leave room for the margins and for the tallest layer; within that, the
/// result is always a well-formed drawing that opens with an XML
/// declaration and closes the `svg` element it opened.
pub fn generate_svg(network: &Network, width: u32, height: u32, show_values: bool) -> (r: String)
    requires
        network@.wf(),
        160 <= width <= 1_000_000_000,
        160 <= height <= 1_000_000_000,
        forall|i: int| 0 <= i < network@.layers.len() ==> (#[trigger] network@.layers[i]) * 60
            + 40 <= height,
    ensures
        r@.len() >= 11,
        r@.subrange(0, 5) == "<?xml"@,
        r@.subrange(r@.len() - 6, r@.len() as int) == "</svg>"@,
{
    let w_px: usize = width as usize;
    let h_px: usize = height as usize;
    let margin: usize = 80;
    let num_layers = network.layers.len();
    let layer_spacing = (w_px - 2 * margin) / (num_layers - 1);
    let neuron_size: usize = 20;
    proof {
        vstd::arithmetic::div_mod::lemma_fundamental_div_mod(
            w_px as int - 2 * margin,
            num_layers as int - 1,
        );
        assert((num_layers - 1) * layer_spacing <= w_px - 2 * margin);
    }

    let mut svg = String::new();
    svg.append("<svg xmlns=\"http://www.w3.org/2000/svg\" viewBox=\"0 0 ");
    svg.append(fmt_usize(w_px).as_str());
    svg.append(" ");
    svg.append(fmt_usize(h_px).as_str());
    svg.append("\" width=\"");
    svg.append(fmt_usize(w_px).as_str());
    svg.append("\" height=\"");
    svg.append(fmt_usize(h_px).as_str());
    svg.append("\">\n<defs>\n  <style>\n");
    svg.append("    .neuron { fill: #4a90e2; stroke: #2c5aa0; stroke-width: 2; }\n");
    svg.append("    .neuron:hover { fill: #5ba3ff; cursor: pointer; }\n");
    svg.append("    .weight-line { stroke-opacity: 0.6; }\n");
    svg.append("    .weight-line:hover { stroke-opacity: 1.0; stroke-width: 3; }\n");
    svg.append(
        "    .layer-label { font-family: Arial, sans-serif; font-size: 14px; fill: #333; }\n",
    );
    svg.append(
        "    .neuron-label { font-family: Arial, sans-serif; font-size: 10px; fill: #666; }\n",
    );
    svg.append(
        "    .weight-label { font-family: Arial, sans-serif; font-size: 8px; fill: #888; }\n",
    );
    svg.append(
        "    .title { font-family: Arial, sans-serif; font-size: 20px; font-weight: bold; fill: #333; }\n",
    );
    svg.append(
        "    .subtitle { font-family: Arial, sans-serif; font-size: 14px; fill: #666; }\n",
    );
    svg.append("  </style>\n</defs>\n\n<!-- Background -->\n<rect width=\"");
    svg.append(fmt_usize(w_px).as_str());
    svg.append("\" height=\"");
    svg.append(fmt_usize(h_px).as_str());
    svg.append("\" fill=\"#f5f7fa\"/>\n\n<!-- Title -->\n<text x=\"");
    svg.append(fmt_usize(w_px / 2).as_str());
    svg.append(
        "\" y=\"30\" class=\"title\" text-anchor=\"middle\">Neural Network Architecture</text>\n<text x=\"",
    );
    svg.append(fmt_usize(w_px / 2).as_str());
    svg.append("\" y=\"50\" class=\"subtitle\" text-anchor=\"middle\">[");
    let mut li: usize = 0;
    while li < num_layers
        invariant
            li <= num_layers,
            num_layers == network@.layers.len(),
        decreases num_layers - li,
    {
        if li > 0 {
            svg.append(", ");
        }
        svg.append(fmt_usize(network.layers[li]).as_str());
        li += 1;
    }
    svg.append("]</text>\n\n");

    // Neuron positions, layer by layer.
    let mut positions: Vec<Vec<(usize, usize)>> = Vec::new();
    let mut layer_idx: usize = 0;
    while layer_idx < num_layers
        invariant
            layer_idx <= num_layers,
            num_layers == network@.layers.len(),
            network@.wf(),
            160 <= width <= 1_000_000_000,
            160 <= height <= 1_000_000_000,
            w_px == width as usize,
            h_px == height as usize,
            forall|i: int| 0 <= i < network@.layers.len() ==> (#[trigger] network@.layers[i])
                * 60 + 40 <= height,
            (num_layers - 1) * layer_spacing <= w_px - 160,
            positions@.len() == layer_idx,
            forall|i: int| 0 <= i < layer_idx ==> (#[trigger] positions@[i]@).len()
                == network@.layers[i],
            forall|i: int, k: int| 0 <= i < layer_idx && 0 <= k < positions@[i]@.len()
                ==> (#[trigger] positions@[i]@[k]).0 <= w_px - 80 && positions@[i]@[k].1
                <= h_px && positions@[i]@[k].1 >= 20,
        decreases num_layers - layer_idx,
    {
        proof {
            assert(layer_idx * layer_spacing <= (num_layers - 1) * layer_spacing)
                by (nonlinear_arith)
                requires layer_idx <= num_layers - 1, layer_spacing >= 0;
        }
        let x = margin + layer_idx * layer_spacing;
        let num_neurons = network.layers[layer_idx];
        let layer_height = num_neurons * (neuron_size * 3);
        let start_y = (h_px - layer_height) / 2;
        let mut layer_neurons: Vec<(usize, usize)> = Vec::new();
        let mut neuron_idx: usize = 0;
        while neuron_idx < num_neurons
            invariant
                neuron_idx <= num_neurons,
                num_neurons * 60 + 40 <= h_px,
                layer_height == num_neurons * 60,
                start_y == (h_px - layer_height) / 2,
                x <= w_px - 80,
                layer_neurons@.len() == neuron_idx,
                forall|k: int| 0 <= k < neuron_idx ==> (#[trigger] layer_neurons@[k]).0 == x
                    && layer_neurons@[k].1 <= h_px && layer_neurons@[k].1 >= 20,
            decreases num_neurons - neuron_idx,
        {
            proof {
                assert(neuron_idx * 60 + 60 <= num_neurons * 60) by (nonlinear_arith)
                    requires neuron_idx < num_neurons;
            }
            let y = start_y + neuron_idx * 60;
            layer_neurons.push((x, y));
            neuron_idx += 1;
        }
        positions.push(layer_neurons);
        layer_idx += 1;
    }

    // Weight connections first, so they appear behind the neurons.
    svg.append("<!-- Weight connections -->\n");
    let mut w_idx: usize = 0;
    while w_idx < network.weights.len()
        invariant
            num_layers == network@.layers.len(),
            network@.wf(),
            w_px == width as usize,
            h_px == height as usize,
            160 <= width <= 1_000_000_000,
            160 <= height <= 1_000_000_000,
            w_idx <= network@.weights.len(),
            positions@.len() == num_layers,
            forall|i: int| 0 <= i < num_layers ==> (#[trigger] positions@[i]@).len()
                == network@.layers[i],
            forall|i: int, k: int| 0 <= i < num_layers && 0 <= k < positions@[i]@.len()
                ==> (#[trigger] positions@[i]@[k]).0 <= w_px - 80 && positions@[i]@[k].1
                <= h_px && positions@[i]@[k].1 >= 20,
        decreases network@.weights.len() - w_idx,
    {
        let wm = &network.weights[w_idx];
        let wm_len = wm.data.len();

        // Per-layer weight statistics for the color and thickness scales.
        let mut min_b: u64 = B_INF;
        let mut max_b: u64 = 0;
        let mut e: usize = 0;
        while e < wm_len
            invariant
                e <= wm_len,
                wm_len == wm@.data.len(),
                min_b == min_abs_upto(wm@.data, e as int),
                max_b == max_abs_upto(wm@.data, e as int),
            decreases wm_len - e,
        {
            let a = abs_scalar(wm.data[e]);
            if a < min_b {
                min_b = a;
            }
            if a > max_b {
                max_b = a;
            }
            e += 1;
        }

        let from_count = network.layers[w_idx];
        let to_count = network.layers[w_idx + 1];
        let mut from_idx: usize = 0;
        while from_idx < from_count
            invariant
                from_idx <= from_count,
                num_layers == network@.layers.len(),
                network@.wf(),
                w_px == width as usize,
                h_px == height as usize,
                160 <= width <= 1_000_000_000,
                160 <= height <= 1_000_000_000,
                w_idx < network@.weights.len(),
                from_count == network@.layers[w_idx as int],
                to_count == network@.layers[w_idx as int + 1],
                wm@ == network@.weights[w_idx as int],
                positions@.len() == num_layers,
                forall|i: int| 0 <= i < num_layers ==> (#[trigger] positions@[i]@).len()
                    == network@.layers[i],
                forall|i: int, k: int| 0 <= i < num_layers && 0 <= k < positions@[i]@.len()
                    ==> (#[trigger] positions@[i]@[k]).0 <= w_px - 80 && positions@[i]@[k].1
                    <= h_px && positions@[i]@[k].1 >= 20,
            decreases from_count - from_idx,
        {
            let mut to_idx: usize = 0;
            while to_idx < to_count
                invariant
                    to_idx <= to_count,
                    from_idx < from_count,
                    num_layers == network@.layers.len(),
                    network@.wf(),
                    w_px == width as usize,
                    h_px == height as usize,
                    160 <= width <= 1_000_000_000,
                    160 <= height <= 1_000_000_000,
                    w_idx < network@.weights.len(),
                    from_count == network@.layers[w_idx as int],
                    to_count == network@.layers[w_idx as int + 1],
                    wm@ == network@.weights[w_idx as int],
                    positions@.len() == num_layers,
                    forall|i: int| 0 <= i < num_layers ==> (#[trigger] positions@[i]@).len()
                        == network@.layers[i],
                    forall|i: int, k: int| 0 <= i < num_layers && 0 <= k < positions@[i]@.len()
                        ==> (#[trigger] positions@[i]@[k]).0 <= w_px - 80 && positions@[i]@[
                        k
                    ].1 <= h_px && positions@[i]@[k].1 >= 20,
                decreases to_count - to_idx,
            {
                let p1 = positions[w_idx][from_idx];
                let p2 = positions[w_idx + 1][to_idx];
                let weight = wm.get(to_idx, from_idx);
                let wa = abs_scalar(weight);
                let norm = norm_scalar(wa, min_b, max_b);
                let color = color_svg(weight, norm);
                let t100 = thick100_scalar(norm);

                svg.append("<line x1=\"");
                svg.append(fmt_usize(p1.0).as_str());
                svg.append("\" y1=\"");
                svg.append(fmt_usize(p1.1 + 10).as_str());
                svg.append("\" x2=\"");
                svg.append(fmt_usize(p2.0).as_str());
                svg.append("\" y2=\"");
                svg.append(fmt_usize(p2.1 + 10).as_str());
                svg.append("\" stroke=\"");
                svg.append(color.as_str());
                svg.append("\" stroke-width=\"");
                svg.append(fmt_fixed2(t100 as i128).as_str());
                svg.append("\" class=\"weight-line\">\n  <title>Weight: ");
                svg.append(weight_label(weight).as_str());
                svg.append(" (from L");
                svg.append(fmt_usize(w_idx).as_str());
                svg.append(" N");
                svg.append(fmt_usize(from_idx).as_str());
                svg.append(" to L");
                svg.append(fmt_usize(w_idx + 1).as_str());
                svg.append(" N");
                svg.append(fmt_usize(to_idx).as_str());
                svg.append(")</title>\n</line>\n");

                if show_values && t100 > 200 {
                    let mid_x = (p1.0 + p2.0) / 2;
                    let mid_y = (p1.1 + p2.1) / 2 + 10;
                    svg.append("<text x=\"");
                    svg.append(fmt_usize(mid_x).as_str());
                    svg.append("\" y=\"");
                    svg.append(fmt_usize(mid_y).as_str());
                    svg.append("\" class=\"weight-label\" text-anchor=\"middle\">");
                    svg.append(weight_label(weight).as_str());
                    svg.append("</text>\n");
                }
                to_idx += 1;
            }
            from_idx += 1;
        }
        w_idx += 1;
    }

    // Neurons, with their layer labels and bias titles.
    svg.append("<!-- Neurons -->\n");
    let mut layer_idx: usize = 0;
    while layer_idx < num_layers
        invariant
            layer_idx <= num_layers,
            num_layers == network@.layers.len(),
            network@.wf(),
            w_px == width as usize,
            h_px == height as usize,
            160 <= width <= 1_000_000_000,
            160 <= height <= 1_000_000_000,
            positions@.len() == num_layers,
            forall|i: int| 0 <= i < num_layers ==> (#[trigger] positions@[i]@).len()
                == network@.layers[i],
            forall|i: int, k: int| 0 <= i < num_layers && 0 <= k < positions@[i]@.len()
                ==> (#[trigger] positions@[i]@[k]).0 <= w_px - 80 && positions@[i]@[k].1
                <= h_px && positions@[i]@[k].1 >= 20,
        decreases num_layers - layer_idx,
    {
        let layer_name: &str = if layer_idx == 0 {
            "Input"
        } else if layer_idx == num_layers - 1 {
            "Output"
        } else {
            "Hidden"
        };
        let first = positions[layer_idx][0];
        svg.append("<text x=\"");
        svg.append(fmt_usize(first.0).as_str());
        svg.append("\" y=\"");
        svg.append(fmt_usize(first.1 - 20).as_str());
        svg.append("\" class=\"layer-label\" text-anchor=\"middle\">Layer ");
        svg.append(fmt_usize(layer_idx).as_str());
        svg.append(": ");
        svg.append(layer_name);
        svg.append("</text>\n");

        let count = network.layers[layer_idx];
        let mut neuron_idx: usize = 0;
        while neuron_idx < count
            invariant
                neuron_idx <= count,
                layer_idx < num_layers,
                count == network@.layers[layer_idx as int],
                num_layers == network@.layers.len(),
                network@.wf(),
                w_px == width as usize,
                h_px == height as usize,
                160 <= width <= 1_000_000_000,
                160 <= height <= 1_000_000_000,
                positions@.len() == num_layers,
                forall|i: int| 0 <= i < num_layers ==> (#[trigger] positions@[i]@).len()
                    == network@.layers[i],
                forall|i: int, k: int| 0 <= i < num_layers && 0 <= k < positions@[i]@.len()
                    ==> (#[trigger] positions@[i]@[k]).0 <= w_px - 80 && positions@[i]@[k].1
                    <= h_px && positions@[i]@[k].1 >= 20,
            decreases count - neuron_idx,
        {
            let p = positions[layer_idx][neuron_idx];
            svg.append("<circle cx=\"");
            svg.append(fmt_usize(p.0).as_str());
            svg.append("\" cy=\"");
            svg.append(fmt_usize(p.1 + 10).as_str());
            svg.append("\" r=\"20\" class=\"neuron\">\n  <title>L");
            svg.append(fmt_usize(layer_idx).as_str());
            svg.append(" N");
            svg.append(fmt_usize(neuron_idx).as_str());
            svg.append(" - ");
            if layer_idx > 0 {
                let bm = &network.biases[layer_idx - 1];
                if neuron_idx < bm.data.len() {
                    svg.append("Bias: ");
                    svg.append(weight_label(bm.data[neuron_idx]).as_str());
                } else {
                    svg.append("No bias");
                }
            } else {
                svg.append("Input node");
            }
            svg.append("</title>\n</circle>\n<text x=\"");
            svg.append(fmt_usize(p.0).as_str());
            svg.append("\" y=\"");
            svg.append(fmt_usize(p.1 + 15).as_str());
            svg.append("\" class=\"neuron-label\" text-anchor=\"middle\">");
            svg.append(fmt_usize(neuron_idx).as_str());
            svg.append("</text>\n");
            neuron_idx += 1;
        }
        layer_idx += 1;
    }

    // Legend.
    svg.append("\n<!-- Legend -->\n<g transform=\"translate(80, ");
    svg.append(fmt_usize(h_px - 100).as_str());
    svg.append(")\">\n  <text x=\"0\" y=\"0\" class=\"layer-label\">Legend:</text>\n");
    svg.append(
        "  <line x1=\"0\" y1=\"15\" x2=\"50\" y2=\"15\" stroke=\"rgb(55, 155, 255)\" stroke-width=\"3\" class=\"weight-line\"/>\n",
    );
    svg.append("  <text x=\"60\" y=\"20\" class=\"neuron-label\">Positive weight</text>\n");
    svg.append(
        "  <line x1=\"0\" y1=\"35\" x2=\"50\" y2=\"35\" stroke=\"rgb(255, 155, 155)\" stroke-width=\"3\" class=\"weight-line\"/>\n",
    );
    svg.append("  <text x=\"60\" y=\"40\" class=\"neuron-label\">Negative weight</text>\n");
    svg.append(
        "  <text x=\"0\" y=\"60\" class=\"neuron-label\">Line thickness = weight magnitude</text>\n",
    );
    svg.append(
        "  <text x=\"0\" y=\"75\" class=\"neuron-label\">Hover over elements for details</text>\n\n",
    );
    svg.append("</g>\n\n");

    let mut out = String::from_str("<?xml version=\"1.0\" encoding=\"UTF-8\"?>\n");
    out.append(svg.as_str());
    out.append("</svg>");
    proof {
        reveal_strlit("<?xml version=\"1.0\" encoding=\"UTF-8\"?>\n");
        reveal_strlit("<?xml");
        reveal_strlit("</svg>");
        assert(out@.subrange(0, 5) =~= "<?xml"@);
        assert(out@.subrange(out@.len() - 6, out@.len() as int) =~= "</svg>"@);
    }
    out
}

} // verus!
