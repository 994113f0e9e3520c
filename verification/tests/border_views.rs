use trui::app::render_pass;
use trui::flags::Borders;
use trui::geometry::Size;
use trui::style::{BorderKind, Color, LinePart, Style, Symbol};
use trui::view::border::Border;
use trui::view::common::Styleable;
use trui::widget::border::Border as BorderWidget;
use trui::widget::pod::{CxState, DrawCommand, Pod, WidgetState};
use trui::widget::text::Text as TextWidget;

/// Builds the widget of `"some text".fg(Cyan).border(style)` and renders it into a
/// terminal of `size`; returns the paint instructions.
fn render(border: Border<trui::view::text::Text>, size: Size) -> Vec<DrawCommand> {
    let text = TextWidget::new(border.content.text.clone(), border.content.style);
    let widget = BorderWidget::new(text, border.borders, border.style, border.kind);
    let mut root = Pod::new(widget);
    let mut root_state = WidgetState::new();
    let mut cx_state = CxState::new(Vec::new());
    let mut last_size = Size::zero();
    render_pass(&mut root, &mut root_state, &mut cx_state, size, &mut last_size, None).unwrap()
}

fn texts(commands: &[DrawCommand]) -> Vec<(i32, i32, String, usize, Style)> {
    commands
        .iter()
        .filter_map(|c| match c {
            DrawCommand::Text { x, y, text, max_width, style } => {
                Some((*x, *y, text.clone(), *max_width, *style))
            }
            _ => None,
        })
        .collect()
}

fn cells(commands: &[DrawCommand]) -> Vec<(i32, i32, Symbol)> {
    commands
        .iter()
        .filter_map(|c| match c {
            DrawCommand::Symbol { x, y, symbol, .. } => Some((*x, *y, *symbol)),
            _ => None,
        })
        .collect()
}

/// The terminal rows and cell styles that the paint instructions give, on a terminal of
/// `width` x `height` cells (straight lines only).
fn rows(commands: &[DrawCommand], width: usize, height: usize) -> (Vec<String>, Vec<Vec<Style>>) {
    let mut grid = vec![vec![' '; width]; height];
    let mut styles = vec![vec![Style::new(); width]; height];
    for c in commands {
        match c {
            DrawCommand::Symbol { x, y, symbol, style } => {
                let ch = match symbol {
                    Symbol::Line(BorderKind::Straight, LinePart::Horizontal) => '─',
                    Symbol::Line(BorderKind::Straight, LinePart::Vertical) => '│',
                    Symbol::Line(BorderKind::Straight, LinePart::TopLeft) => '┌',
                    Symbol::Line(BorderKind::Straight, LinePart::TopRight) => '┐',
                    Symbol::Line(BorderKind::Straight, LinePart::BottomLeft) => '└',
                    Symbol::Line(BorderKind::Straight, LinePart::BottomRight) => '┘',
                    Symbol::Dot => '•',
                    other => panic!("unexpected symbol {:?}", other),
                };
                grid[*y as usize][*x as usize] = ch;
                styles[*y as usize][*x as usize] = *style;
            }
            DrawCommand::Text { x, y, text, max_width, style } => {
                for (i, ch) in text.chars().take(*max_width).enumerate() {
                    grid[*y as usize][*x as usize + i] = ch;
                    styles[*y as usize][*x as usize + i] = *style;
                }
            }
        }
    }
    (grid.into_iter().map(|r| r.into_iter().collect()).collect(), styles)
}

#[test]
fn simple_border_test() {
    let view = Border::new("some text".fg(Color::Cyan), ().into());
    let commands = render(view, Size::new(15, 5));
    assert_eq!(
        texts(&commands),
        vec![(1, 1, "some text".to_string(), 9, Style::new().fg(Color::Cyan))]
    );
    let cells = cells(&commands);
    assert_eq!(cells.len(), 2 * 9 + 2 * 1 + 4);
    assert!(cells.contains(&(0, 0, Symbol::Line(BorderKind::Straight, LinePart::TopLeft))));
    assert!(cells.contains(&(10, 2, Symbol::Line(BorderKind::Straight, LinePart::BottomRight))));
    let (rows, styles) = rows(&commands, 15, 5);
    assert_eq!(
        rows,
        vec!["┌─────────┐    ", "│some text│    ", "└─────────┘    ", "               ", "               "]
    );
    for y in 0..3 {
        for x in 0..11 {
            let expected = if y == 1 && (1..10).contains(&x) { Style::new().fg(Color::Cyan) } else { Style::new() };
            assert_eq!(styles[y][x], expected, "style of cell ({}, {})", x, y);
        }
    }
}

#[test]
fn too_small_viewport() {
    let view = Border::new("some text".fg(Color::Cyan), BorderKind::Straight.into());
    assert_eq!(view.borders, Borders::all());
    let commands = render(view, Size::new(7, 5));
    assert_eq!(
        texts(&commands),
        vec![(1, 1, "some text".to_string(), 5, Style::new().fg(Color::Cyan))]
    );
    let cells = cells(&commands);
    assert!(cells.contains(&(6, 0, Symbol::Line(BorderKind::Straight, LinePart::TopRight))));
    assert!(cells.iter().all(|(x, y, _)| *x >= 0 && *x < 7 && *y >= 0 && *y < 3));
    let (rows, _) = rows(&commands, 7, 5);
    assert_eq!(rows, vec!["┌─────┐", "│some │", "└─────┘", "       ", "       "]);
}
