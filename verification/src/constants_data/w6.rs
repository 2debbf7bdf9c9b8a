//! The raw limb data of permutation width 6: the `(8 + 60) * 6`
//! additive round constants and the `6 * 6` row-major mixing matrix,
//! each entry a canonical field value below the modulus, little-endian in
//! four 64-bit limbs.

use vstd::prelude::*;

verus! {

use vstd::slice::slice_to_vec;

const C_T6: [[u64; 4]; 408] = [
    [3352568211928303185, 15665882624935136478, 16694419313858959419, 1461525030627184536],
    [4290377113084622787, 14823123334282545908, 4882144023266965566, 772282197906185374],
    [6651065023389854431, 9569559133943690673, 11136285386258182686, 3133585193174496556],
    [3154520903713793628, 983367962825823740, 7309415363683066303, 3154403055443472411],
    [2232300700915662140, 880666068138387751, 4404717036819992278, 1313456400327784527],
    [8782732014235913299, 9849399154458933218, 3502242086813472997, 249107332433037337],
    [2028201798691749201, 13376923110475111088, 12760551180132080310, 2026926477915957355],
    [11366433171340357523, 18081129955307092708, 12234252201088091035, 3177326046630588037],
    [12503967048847188017, 10316025059164421618, 300029224932979057, 3380231706103695130],
    [1644114885531670292, 13444431062321679251, 344842210592276369, 2938121085072681664],
    [3757490842055894496, 7506520851064248091, 16014382215831532111, 1774450826139695840],
    [6116359373731605459, 16592005864461783389, 12841139639362312980, 2027140090011680371],
    [10044247620011427761, 11341935675000483245, 9906993445121564347, 780253912827552149],
    [10930108068509234055, 6680620330183117963, 13163381361089709460, 764325405825322899],
    [1733118117236324975, 6984983575789749222, 5145647562514619473, 1374334832188517741],
    [14745207914374596593, 3393672858463774732, 12812257796871139784, 971195651005173898],
    [10102122569110912677, 5313648529849581246, 12702518775516008762, 374634312930361409],
    [9572920725147007122, 13541902470974023228, 2971937252018549168, 485205198002192897],
    [7529074541182438195, 6371454443662928719, 17734663423730679667, 1104941349886733319],
    [8945451578965163672, 892907077634034519, 10294516986602416562, 3161879495290085167],
    [1002621463155897905, 1349083620610811851, 11157095569393742085, 2038376608060972923],
    [4055403560852411099, 12068100814974921808, 16032590254798248474, 1660731444472951084],
    [14051798280251058161, 14321380421592545748, 5714559542204076849, 1856183496904957091],
    [13752187924651424264, 12856431544684473092, 1905901998938088666, 3394548990324843020],
    [6104129921423645936, 15883512120589736209, 11325402095834360272, 411003149051753683],
    [9806743709199239477, 6904909680089878639, 11479465503777727532, 1306048320411802325],
    [10467750596216697916, 5270882302508831085, 10693245324846499805, 2736308842988395395],
    [8752932084981703748, 1488621990777723156, 8361897040582103523, 106958577811954407],
    [2087615626128427471, 9859169786179142673, 8694594134791458581, 3052674617284798237],
    [3061178402515457498, 8902779782829494939, 581846153225536606, 1724928871697989180],
    [10297185298116702227, 13448160024581985648, 7346687998193977917, 1862909570758154651],
    [15161064956159499781, 17147278807860273996, 4786361008681020019, 1119393641176946715],
    [9652514892926976023, 2886525324077238698, 5259728146268426979, 2297711387500375161],
    [10366172514849002094, 14720215079129072483, 4088668498126934500, 1224347297074902655],
    [12028972770174073839, 13825396758345012924, 628750428649087806, 2244508689751430981],
    [2781550813082050003, 15713610596194291240, 12331941714314326932, 1342046284554094248],
    [18079143402278242531, 4300884792196378089, 13935013878772311226, 1562701576712550432],
    [3789040737205202962, 5883877645020728503, 968993489601373832, 2246298657910849079],
    [7929113769126243644, 1869028654401205938, 3935290222999108046, 1238737868226491129],
    [3686006330144529866, 16303811423631726153, 13203256667029618110, 1392242404869696429],
    [15973629807109295316, 5996137675102049895, 17403064937128285062, 1502584690719226469],
    [3556004092308196230, 9395509756189417462, 12131485213582372942, 41088079530043774],
    [6648723137691307467, 173314348563881674, 6600646291592887146, 3473165640367457617],
    [8320706948676354587, 5809582167559236059, 17320065824759639064, 1507940500657512898],
    [355384996147858795, 15936835164306701803, 1201708745795702106, 1252547201829664216],
    [13513779276233277985, 14596534425048485551, 17450252772398671953, 1704793925206468359],
    [1349165484470062946, 7231123029148949347, 17983524993900076936, 1904004321030942562],
    [11993696130933694771, 5405857957292312221, 5498593988560979164, 2273142071146070118],
    [18214297492084440623, 14967937388725786878, 10924027567366519180, 2304919774400873082],
    [12846150906918969112, 15527520067915570653, 7874715962153795578, 242759174150101427],
    [4814758808287853958, 6153951909470471677, 9487441728974089339, 2160231266020988119],
    [4080852493712059194, 5025229105647605232, 5766196743889245193, 2891653477830766233],
    [1679600274605962273, 3602841538899076963, 12755914257313415215, 2140516940231779696],
    [11870207176592557258, 9036819351783276352, 11616607754862802977, 1495046132281843895],
    [1197940817780573285, 12076069682394992935, 16533858565658154115, 3237334703533551495],
    [16128636456396563252, 11334687629146435163, 11876067116522726164, 2152347165981668525],
    [4580461142064934512, 16269801305619316839, 2523397751647624328, 3330047874049866566],
    [14622734236107640158, 1606452993045447495, 6478598593051057546, 894035795831580380],
    [3219698525532648844, 2750095312455227547, 2255348779134820739, 1404610979922648390],
    [2109225363658541741, 9432044677689841019, 9578395525517110123, 2668720224876744492],
    [3117992020847014957, 15325764224537550743, 15941599853273531628, 1660265388147166214],
    [1203240719386360705, 11679486736832926877, 15405676457148659547, 966246138974346872],
    [5679686292726034808, 8043952748884515278, 7231212136824623408, 914077163094823519],
    [2692652692319294506, 1616673892318236139, 10375791267792040043, 2353079955614584039],
    [15226693522398020709, 3712630116241247204, 8690691995096466500, 442464517567574194],
    [44161246942771487, 4802353451667154085, 1105588123134338066, 1599394172048137849],
    [14653119439192913023, 13617255889676616959, 16426426788373385399, 3306901318284201236],
    [17338642748595670118, 2712667785851673762, 12500031506359378199, 2111351297685958812],
    [14804989204692517188, 10413255462079888408, 11431856088133616521, 324513467889788877],
    [4953876315890172493, 9041090688730720215, 10458600096924422033, 3477635445688286378],
    [1167140253849405250, 3107223511422885138, 5832839994687733195, 817319164431727948],
    [13042838842928606095, 2637857957365298038, 16255168954206097114, 3239364692205007424],
    [11204176770423472516, 8438108681618893663, 1359672043738339075, 2171329122390346749],
    [3338525469630709157, 16495675253345464981, 15106637972623141596, 2945482273790466350],
    [15951454800754562272, 9476075290192062548, 7475235055001907676, 3406082855218845404],
    [4621192588980189890, 14875785030392697199, 16338552638474738810, 363233270636990943],
    [9018812417467323561, 10138837933029533844, 15528752854511043421, 3411692627306060391],
    [8054659214729439860, 15809696586754317219, 1010128136589703211, 2731673532733075076],
    [4910379242371682175, 5708492197885690517, 282043360468288626, 3453261791554954016],
    [15479429144034238191, 14633590347775326493, 12172410828172989364, 2921261077484812680],
    [13337220702316670084, 11107469655056699973, 13726761001728334695, 2367986063698858585],
    [12703181595380178387, 15212307857045289159, 14666627596438047599, 1726052527834849061],
    [8523818571256064933, 4511742248742071278, 148069449724773984, 184343594739804420],
    [11496735735530495296, 6737596327536660878, 15274566782164826857, 800933665883790122],
    [3252655429027942151, 2141712247794290546, 11247440845483943462, 306301522309074631],
    [13298684924551605596, 17631727091721796729, 7106682511905969412, 489313993957211161],
    [18175590386085112291, 13326001261377665627, 4454527748726068167, 3360002704615523337],
    [15831169705872602109, 8630156840390215530, 919502366159765034, 3150047300102581884],
    [1884142188678363795, 11728090514268498901, 16689448521395693817, 1022557240867052851],
    [1377415642914059553, 17802788321626435796, 13337929629268372400, 1006495634739508816],
    [12003289928301601493, 3420567520954290122, 5384843184506971978, 2867764504194024825],
    [4883948548551550399, 3687659762955642380, 16455288772119996482, 2474098431296566109],
    [6974647867898384519, 11004502176266704698, 11486461806396563452, 1386429198808348886],
    [12451775786980202378, 1705057237565259508, 2775913477627652040, 1014797457725234494],
    [10244718758176794286, 8395524159540650026, 16185588597031651170, 1090135977731778719],
    [6107067971956710329, 7075939774241384745, 17504170437937877426, 3337785818563173247],
    [5386245056569541876, 4213223824500841866, 7987743873695821531, 194242117856265626],
    [6574484857648409716, 12498396564595859774, 4076929280451507069, 1864651285896219757],
    [8426093237312632581, 18431902885226917023, 7161571924367054812, 953215027284244357],
    [5605009686447627826, 11968798967067332176, 12420782285800235373, 3213121630302992922],
    [1493713131474090991, 3178770909379491157, 8110450009134535874, 533324638804167923],
    [11249557458757215788, 15333204801054444103, 3594281170220901132, 2583598245008125889],
    [11156459156058836351, 9731948054461344484, 16421066158546310006, 1717555274936709136],
    [4523866371549560867, 164069393402144400, 1412819918059492137, 1683724793591529766],
    [1278767399724062293, 16554808393162805926, 12517662759288671377, 887156968205439521],
    [13232237434627881, 4084019054513242053, 3780133203116206970, 2844362609000918330],
    [10874169839975893864, 6918879970845234472, 17415846723076241741, 1047144747663091459],
    [5003794712184461634, 17178757666596915851, 541080848268053224, 2241420942369296334],
    [9542706678081991889, 4635741509362080650, 13560742430471692195, 3364564496785159901],
    [14103592242894563187, 4990505311244246722, 3842143004673590227, 2039494852387759972],
    [6287062450625962932, 16125735000228912584, 10258353934940623778, 2554850175725046955],
    [9750118789452690164, 10731921454495928571, 12220298665718863515, 1863703155188745731],
    [14765037493359594703, 14326018049748184879, 18037066042684812979, 2413198067944633327],
    [3062351619183601231, 18205656777091710060, 10147634376924688286, 582648277912912131],
    [6868152063887647087, 1149384759910268826, 12016017581661653227, 3150623854899745878],
    [720228326462751465, 9359523243508567127, 17184814337586809765, 1271445833591919891],
    [6674075455722843636, 12570891697526476397, 1958783845480417627, 1977854088426412112],
    [16877749137551795005, 10660539790299930860, 12544648844139843799, 1481732685996935319],
    [13953381105086018548, 13206163278780526020, 11527259305442034675, 702905443670169252],
    [16151216795161465020, 8383634417003692823, 11705372857336147336, 411386939033760385],
    [5006479370742976567, 6164959480341065764, 6803585700877689791, 3164010276253126621],
    [7636346118869342637, 9348905595909358147, 7731976286559690090, 440634746135620060],
    [10743015098219401961, 8325827516856092091, 17586889549496869189, 860621766308919997],
    [16875099482938686406, 4222126476833695701, 10600783988008970142, 3347262010460517100],
    [12474632298323876079, 5178702612342186268, 1384780321392851539, 1118090004455529192],
    [10135132586300346767, 9013059070306287701, 2824247915369382734, 21726603938259579],
    [362540374456874945, 10694253540328230216, 15720261602519884556, 2541509777918528112],
    [630881150181171572, 1345815579758717742, 13679962542011745987, 941884672081816466],
    [5708880485904893371, 17179831425839794807, 8113496939214027781, 3437197006694377373],
    [13256797854869312294, 9078628048746488296, 2840742032144166971, 245547367312712039],
    [3802998910793138631, 13004894728179805072, 3176781225468904806, 2741268172366465399],
    [6900346501549401959, 10479361759838106196, 5941570876393596244, 2910086304894589801],
    [1814006809626388693, 3393659729879961343, 2817175985115484214, 191844093971673346],
    [16172484038460656239, 3658915027903975972, 12402700889307366413, 640940159588933848],
    [2426448900957997483, 3608445602197665807, 66837549163578487, 1444048282655319956],
    [17192384724123220263, 1297798566876888517, 15661745567956745991, 2984466877709508087],
    [6297517769605952329, 9608214103185047120, 7009996540674556145, 108981566570450049],
    [4062806626278404704, 5758190997744856336, 10834180542608091021, 1910886794895809853],
    [12744519316913643843, 11321897945028582559, 15181350396943205242, 291810559009437991],
    [12801358287953641007, 17089754994078895847, 14622328630034021604, 75944403289676983],
    [8271591524712249987, 4255872517116318732, 4910594113502932402, 571326213542504993],
    [15252799690453461991, 10623329115216531922, 2398245548247202710, 3380596592400430943],
    [2826124580373159705, 17617267403553483272, 1154555171336129783, 2179954322941404326],
    [4477022830537521270, 17770435356045197808, 5905405339913937160, 2567746719084958186],
    [15885674182685642921, 4155691960627029642, 16589971451219369791, 3334443491137420864],
    [17867985888778614258, 321421640174125770, 16706329248033913285, 1290188777209966530],
    [11040978435359701223, 5161465272946390712, 8323249696497135845, 1845721810092625548],
    [14504349515479793921, 9627144313021087709, 10967485708934226812, 1105454964437466829],
    [17530080024746520663, 1751063537676957572, 16584042508611840774, 2038845964250428440],
    [4445619495904528677, 7093092155812611640, 2489951266509526004, 3299833374506345375],
    [4924508333512128737, 816024615645494437, 7772129714001136805, 1387297500395803416],
    [14162286765538089563, 8023675882848451444, 9831615858776034816, 2551542706717820875],
    [5439724181416531126, 10532360638520333879, 6265124343489785645, 2282087912783366735],
    [2451490647706200079, 5497770748902209117, 16427043999063518677, 900574249579527276],
    [6307938042530168579, 7586193311595993515, 6954517210255363900, 1573513868258105660],
    [10561880016570957214, 419796918556719202, 2698245012379592941, 858010145221445605],
    [3532386477394234522, 402646526151671991, 7581212483571410971, 1383296250299192523],
    [17296566925892753026, 9884197614752115180, 854916026519871470, 2685152567088777036],
    [16138226963465217858, 11516088735627626902, 10205890169617482682, 395908959486712465],
    [6339454124059304605, 3833918597379975651, 4271788326453949789, 2162095298165413839],
    [7203200329273074809, 6447745186042852536, 15473718509669566822, 1895683727464574652],
    [8143725252319603344, 11444791367679950631, 9672276753154162947, 2680802864452071850],
    [17206777408172698374, 14149966025231529437, 18439657350074728478, 2483349558398120090],
    [3675780059548854192, 12535679999315287925, 18245227691822438483, 2924381870211639193],
    [9069970251046887432, 7391236644343906854, 10076618995877707550, 3447828163075740872],
    [7163582581324512666, 13005283309468083908, 5172423262987341141, 2087600713338881201],
    [8410687093887373576, 813794934017341894, 11416756131462506019, 248766413562321835],
    [12346935858713659968, 5241144284292189214, 17659697231076116004, 433053456417104863],
    [14464430466771461692, 17875239781674472061, 17527718156052580123, 984958310594709312],
    [8013107385104712899, 9713530067896542516, 10253212112150212774, 917181589289585450],
    [13648366155761881373, 2141862088585735080, 17601668667496886258, 2180698635976624580],
    [10225862510620183181, 14561217378710114006, 13584808519959836357, 1995899074139298483],
    [12574382247028849098, 10465694157204356012, 1075143504062894498, 780179946238471924],
    [13893105836024419080, 5981024354124912176, 6644032659066510841, 121765179506232507],
    [12556516758344408127, 11002506543315512690, 6452484876296461865, 1872754238142348007],
    [5534825722943471128, 14286349578817732219, 8147192065758848039, 956814636236235761],
    [7872483069618027983, 16975204820217268817, 711765775318520370, 2214643472133266360],
    [13545606924681396664, 4483676442562525930, 15479981864614638370, 2811624637555644260],
    [10427681687341118947, 6056518888303360419, 12542017217390403165, 2406577825050199473],
    [16595907208561724298, 16527452981506665312, 7784102134458589426, 3329453033588251225],
    [8767202631199497951, 15933700659878268749, 7786577554089008506, 224516101276227291],
    [14541307267961194614, 3933455058274536113, 640705624878054420, 621160662629524937],
    [9008697810120398919, 9167114407605059687, 5185149532174018252, 3410281953039930172],
    [12670644386104049555, 12730031650999108074, 16103220474118144200, 1453153390739491536],
    [3682117409600172735, 11372277760778988238, 8469212703167824023, 1706482566313004813],
    [2842944684908418855, 7203969499910909720, 14151735329379459075, 1051322343044368600],
    [13419205316993481145, 3673887952220946202, 3411963763076021684, 341338567319459172],
    [9568037600427888846, 18362989607371415460, 1575086392212222460, 2606471460455872247],
    [11608900026619258768, 541296042304887536, 1163049582201772297, 2727795181045744647],
    [16047283660298349184, 8980538071464950082, 14828034817576088856, 3458286897385331177],
    [16829714569727117219, 15047012767580644483, 13539779489905196024, 1322844682809691928],
    [12428656877444122300, 18269821236435812407, 5543929335496632928, 582862394420329915],
    [2102869614527198676, 14691373534760949063, 944465581016588507, 1229870798713842742],
    [2899616685623120785, 18111696033996350489, 2736656384547470840, 1402756445545392777],
    [9097863133460771735, 9499081595919257317, 4381410051099946938, 1004234377667897071],
    [5829482401150066367, 5104805218370617075, 6722189734533371184, 3427140117925490234],
    [3520893404272216103, 16933788435108761794, 7044213982874038651, 1885483765638570970],
    [2152500592861961711, 18231117654762622460, 4695928947556561657, 2080530058230849027],
    [16390392261243930950, 887179592705513113, 16387516812235197196, 2809455923966821226],
    [10547786266763567294, 16220437663862898555, 17511018730136565319, 537574972234417238],
    [3088855529539995904, 13362783655343186535, 10151072404593290918, 103504947144346211],
    [8031872075226486743, 1321847530504422575, 18204949679420225843, 3186630706532965954],
    [2930222547163593905, 15800814829144865442, 4490240490748237167, 1763768641114499578],
    [16503074104377417934, 8703635296485716723, 4755699179835289042, 176107006325728038],
    [8181167888822366891, 18116102772017851404, 11533255710936543506, 1537774336712427850],
    [5820580237168123681, 593722665430584362, 7172071942325600137, 3066431047683308954],
    [8729303261165138637, 16009117662800247529, 13049534972371725225, 2435168810614866931],
    [13922851633315936236, 6505201597882600706, 14802721388344955787, 3181470952294589562],
    [17924669275236364059, 2774809784147051916, 16999164898206524300, 162155351572453422],
    [17483204165855549682, 9569497661114763244, 15669392514663222538, 2753635162343758875],
    [8927781520764324544, 9364919209304189083, 6935937179186722230, 1866829246897822025],
    [7371981240675377424, 16317069984994229030, 14564420154211893640, 1062718697190912583],
    [10340219925958652396, 5520378639830002793, 10040100512894957135, 2722401215456206862],
    [15294962061110073167, 5587934863821245182, 12595058539796955585, 307592356505539557],
    [5880217280718870858, 16232264429350501123, 2779795059538546297, 1408985154708330079],
    [3148364391367450333, 5628060710982763445, 16152916319068814498, 2653762874305216158],
    [12868221525153975948, 14932399741792766196, 13593005462585734340, 2442742573025212256],
    [42660036768132380, 11230478766689277203, 17308751831782349930, 2633998398103751131],
    [16777504723041080162, 1062189694385518239, 3025633690285225103, 3135130693601828030],
    [12199334255300403959, 8229743006503897410, 9351652320277164479, 2610395788258833281],
    [16374291871890137068, 14360691847571826626, 11728708282475883032, 2308473192735417883],
    [3444166510820556562, 1872046231902597840, 935198548096383927, 1017473070783194614],
    [1553430373441128996, 11631039886761394615, 8547159629984303233, 2789192890523576876],
    [7439996060521640372, 10349976890147198730, 12627537440806702967, 2374439292004985336],
    [10559717105555880727, 11499748606610424454, 12080386948939303852, 2386447292788253984],
    [4814691267880858804, 14774149922120216418, 14219679432961765421, 844218145517347113],
    [2988105510234596811, 6740274599090894419, 16485237316293381074, 2579197412682296945],
    [3833190311618382793, 7661192211614069533, 12993830156319956831, 262152859749519821],
    [3276675708060219031, 2413387887755031718, 10662998050591859792, 2846336849082767722],
    [3584163138937646951, 13717480436876268418, 8757333857694335465, 915207338762807295],
    [15838860237110849427, 15754133402434712088, 15366911686737001308, 2233828093177335325],
    [10299524511921501129, 7900352789018442642, 15199199019499427179, 191358709879507566],
    [5901103373557731834, 6544199950029965635, 15715289125713132640, 936044219374777544],
    [17121211584862649566, 1610527701689577669, 7514779824681811799, 1732497959874079253],
    [12393439477283311633, 3208554467242733082, 730890065295266136, 353931239743175994],
    [7644054344203891629, 3835417606977791396, 7309110042877718620, 1554620897355495419],
    [9947743043519854769, 11908726999418419928, 12453138978857208163, 3326311123111269129],
    [10749977960539663528, 2008141834207822873, 13485518473182762023, 2744235675725235307],
    [7941248695167217219, 13122102987012914339, 1772155964818721878, 2419817875670657807],
    [13165097568167405391, 6332436014991149274, 10471341364730063480, 2544744025017439881],
    [4540870670945842475, 6054319298913082880, 12612829429161578873, 1893885735901186765],
    [11223832689073767169, 3850929711919335893, 12120545961450036755, 1970004842310155460],
    [2538541025416931621, 13024329157569918597, 184998268882015218, 1906321686990359410],
    [15933509102026534331, 13805776739806099405, 7707738137390805227, 1778456761338521961],
    [16040901793810739785, 4949954798760307018, 5047794620845081105, 2433205107689709030],
    [2378657629037992187, 6645296534613338919, 2825532191070619543, 320843803682879461],
    [15390021771951500802, 6540606202522761474, 2128274457373068900, 797975826727254664],
    [12091548131561185539, 3197283053367821178, 6339088307267590285, 625567237836689254],
    [9840075026020617768, 12122680250281612682, 16749941627085989940, 260557216651152256],
    [17998499341674550029, 17499000165958088550, 17383625552084897289, 2731347237191433333],
    [3288738140976225914, 1276121073487476006, 1751059418018502731, 2202211166241945444],
    [8806024146398214564, 18379604173215432151, 4710151561450483802, 2602460810843750538],
    [5443515462214055239, 11230568018350209050, 6427426816579171188, 2304771345171282293],
    [3007724245397149678, 13905427582757744108, 14450447307807717675, 1685205403776050448],
    [3466094638381967081, 12383530558983668388, 15464716005786045791, 2990460585157424355],
    [18044027719277087956, 12781660770729252424, 7911413516285930943, 3473677345559225324],
    [7497871652305448432, 4118988047377505796, 17571685338270392482, 1920759901179390431],
    [4169309686758604811, 7236913052509896763, 3976503559657988455, 2279267779693944418],
    [11589937762709550803, 4347231379797269395, 10785376097934399129, 1090981373052698465],
    [15651984551688886057, 12955359736116760505, 6536142118820868433, 100582201803180659],
    [8029458489374275339, 12443687373635033994, 14244585481339717500, 2583143660875419919],
    [420543097780452211, 7524024107610550347, 4160134443102838258, 3336060031356756722],
    [10604286477477947731, 18183914450758582967, 6779753945092009979, 1315486222239097773],
    [10657422783262583149, 479509608193243922, 6590641919813164332, 2182709444534254621],
    [9264706396083894101, 16075497638007615816, 9740196283652307244, 1098480356701297622],
    [10928259308260257895, 17195628041204296936, 13987594449045493377, 84503516453747036],
    [16305141647574963233, 16529790647470704157, 2025415873368621553, 1435154821789432347],
    [10059992863941341758, 1884656288408678836, 7784017431927332555, 2367879975243134789],
    [1683288447506055183, 6334672549962953617, 3924990938984722864, 3200685138776657452],
    [12874824001731478955, 8118666507010966657, 4443191726023912070, 1768949704696379311],
    [1011182065626600690, 12360677172891280355, 16854435346808557686, 3429793621762237398],
    [5307121149417767046, 18113677011958622670, 16651205442149715238, 3112972769349375750],
    [4368305853270625033, 680191743700995091, 14653802645314843503, 2795798314353705767],
    [2680124928328783327, 3101922147010471978, 13213518640269653279, 1951938861455392908],
    [2257491977820003044, 10743532972377666605, 4968771177885242607, 1283731803589881640],
    [15440351207835916062, 3741438015772184650, 14992919930632464529, 2535581035283311594],
    [13181218355820645834, 12477716878795146926, 16950584573708224201, 2271196816219235384],
    [2482355527115866582, 4987174789433607469, 13111205488736799074, 2846133794630470699],
    [1528343455685564329, 9018431933212817174, 12304182926446519323, 2232831659334764171],
    [18084636077035224900, 12222317231477874948, 12416165459923915351, 967926987293077243],
    [5874967952389386259, 17438992129151725570, 9013417247904352993, 1012884939160525211],
    [7972448242999914150, 8637433264241695964, 14491493266021913035, 2412785011856164572],
    [16775647094297815226, 15175782375934696561, 13046789024753402951, 394078748568196401],
    [18125198418957022397, 4926454035065158123, 14487392022922096163, 1761814034500465588],
    [2361277489372835962, 9636112747052699735, 2062415456177285594, 2358424282381200907],
    [14495753252528721295, 7779212473893957434, 12417126665781343213, 1616411376569968518],
    [12685594020707551054, 12551397191109289997, 14935030528065480310, 3477450344298185738],
    [15524082116586658667, 411772368626979146, 7905942498825811699, 2480265618177551967],
    [6352072169977252044, 14250492366672746040, 7695123144206733403, 2788560747770380959],
    [17424411921203443025, 17191974255300051186, 11953897859006716674, 477658589336627515],
    [18098250196246396707, 2658684462996595129, 12459991785667252873, 3222820593104802625],
    [12434412938153956641, 10460150578838286650, 575907299951527014, 2371297268745971421],
    [13469626385931539708, 134421547046548063, 12046910672733066836, 1532460386536078907],
    [16930135711960924421, 4579795047659605721, 14145146591447819662, 1837476844234430226],
    [17033980226565463799, 10469605793339351185, 15258342844168201462, 2725190352888559365],
    [13312703857341648124, 465073409717160694, 241582839250296436, 3453303303811035105],
    [4714225255676439649, 14229465641576567600, 17574315742383591442, 2006729894718428238],
    [9141955533336621072, 8872753725240829917, 6259907092006316403, 49536097577205820],
    [12889432063825658251, 14389630792695576498, 17329729982519849256, 2551022810463365249],
    [9660060219236880093, 14298884485018153007, 16298475901596361609, 2275343873359451335],
    [8308627135845678647, 6130170983142983988, 12691486186613985109, 3306819288232066401],
    [5002295690368943108, 7491609575509755995, 15239402350472947242, 2721678256835754012],
    [18047307576137705004, 7239309614225351252, 9823347492609870591, 2338714794975059096],
    [18174851757402176203, 13208760866171837308, 10709071874368120036, 2826067423988908344],
    [15812606590941178454, 13245302131941541663, 10851274200587028060, 1428602951159245697],
    [4879539697583617712, 483119505428169443, 10095609936468210024, 622272504027906356],
    [9536240475426218284, 4752876538190541064, 6343245262587009552, 400981978827648296],
    [7491371307797062883, 10407561351447561989, 15621510571984853274, 1592343616324000466],
    [9604824086730013211, 11108563450726642619, 528053582029764838, 2047108748226426457],
    [4227479198296331666, 6458542998874217951, 17808246999220697829, 2879436491985814023],
    [6217921201758781801, 12999747344087052994, 6716132211465930335, 1066226422690228887],
    [15441647206313674087, 17504521614468144986, 5002650751726052463, 2845234698559261531],
    [10795539287177431218, 18359380741669986927, 13232812077037370199, 1950487638551876433],
    [16236164958102037326, 13656824120493161587, 15956843828772385992, 479380221465153531],
    [11750924838948120253, 15362719829167185271, 9186474237165267865, 2526038762316077447],
    [14747133946403611938, 9827559670899429864, 7467306612295445868, 1202753263049415751],
    [2647942861568132497, 6020533490220227211, 12777392900371051383, 1018114204044688340],
    [2140454143338891128, 17678326096865904391, 17776122493932725839, 2767238329794564962],
    [15275931682900533294, 974685361225313270, 2999744789723489915, 360305175789110752],
    [16723920170632621600, 617142348654746620, 11962196274217001604, 2760035909396946753],
    [16655588054977829959, 14496846132062516165, 3530648578093608402, 578553794141609569],
    [2400936301955390308, 15550611293703225180, 15384061384000353131, 1379069794367245085],
    [15152740200322620875, 13120613836799289560, 16128593519618623618, 648255660632451007],
    [15610567760929191200, 14325273485460563528, 3134114037258845657, 3155628117464835040],
    [13772866520044180538, 8572509349589091248, 15562371791915596473, 1363017072958881482],
    [11955486306886081151, 10187011388340230398, 8793695097792092119, 2829277170376280070],
    [6845552372306517558, 9518889509152438256, 16365792166545923772, 212809422489998930],
    [13128091564024446965, 942286719017573140, 7498219314370982045, 3440473211306241615],
    [17777522181683513063, 7600043184719917639, 8827771078848961788, 2010442534096636629],
    [16377556084598748543, 16859134542995255232, 10846127043559690191, 2775259870295380111],
    [17140630766688786769, 13718423692505420768, 2139711113975224427, 1646855779652735715],
    [17511175120018460379, 10035490960501809465, 3356922798771420292, 2856163941071177986],
    [10801786351914493521, 15566563986914738299, 1018578355287593090, 490002996444142955],
    [7418784003191095334, 13171817237350424865, 3165807403441891607, 739115089974940533],
    [10920647218811171173, 15093864899590281285, 10725692833122509428, 2452775730703845292],
    [8257530980593087673, 11302106766983850753, 13502802548063070913, 1018189159094705980],
    [9880547591127855219, 13389352027926067245, 7648937772324441695, 1085114374103650644],
    [12999523427568336029, 888265565040996081, 4187336019238910932, 1050002599634131786],
    [16455854364753772267, 4535307056955365942, 3231021850331363839, 3084966506913250177],
    [9118896291649455698, 4586377761973054201, 10224927198217681967, 749191981085945198],
    [4076839355326650017, 2746574645166212754, 2122559817861312335, 172219010404102598],
    [17013571122823869349, 15101243829428707628, 4682995945860390796, 2954881728119608496],
    [5275915069037864595, 8176855318421163750, 16109414193744413621, 1768172649728395602],
    [1983168329773456074, 1514025244711421782, 9544388485554605448, 2549148264154187340],
    [13889654088480401326, 3918508809162023568, 7124781874534629055, 3456408762910163608],
    [2481857575944810331, 11703002140402029539, 235699010200794949, 1866500848088173233],
    [11026123933873168831, 6356173538767972370, 6746679885948228504, 283396412663598700],
    [9279252673153186352, 11424793366641921212, 12431345674373449354, 640276575689519297],
    [17588512491656350956, 3097218526956064594, 9816054668776390356, 553323348705359730],
    [1662226093234559808, 5539739477145900172, 146941311885070712, 1666036611424117425],
    [390166836760163834, 3256942488508866021, 454542241207258163, 2377865193510457349],
    [11043815437858915911, 17549889178832989515, 9708248508125475976, 643125958822551277],
    [9415985988332621003, 6064244236680858561, 10993313762085986695, 2035448390553313246],
    [13595604376451197939, 16411283473195920782, 3707967319664990887, 3010112663563617807],
    [4623944403649248086, 6817071480173130575, 2489043305314840426, 1004254729914910504],
    [16888744975838745000, 18422336212509257428, 434052107654518831, 753484473061905206],
    [16063862737778353792, 1719291135440749859, 15174786906517643852, 262189479101404160],
    [5729439285806257000, 7608386105822492341, 3890866199307714558, 1296499653556813657],
    [4313897288086189711, 13771972846778079470, 17452687184117824276, 108479484436439925],
    [15402566596561667577, 7435460266988516623, 13199812373890883766, 2746547466659650207],
    [326553537994270660, 7598190551740893191, 10879539386286392804, 3042959114724140775],
    [8360400754997778283, 7625086512303768528, 11331032661048015859, 2579054847052458398],
    [14278127335493329159, 7410924842475946472, 10228033135482986272, 2871930971066868873],
    [4087041380819987583, 13887619055078578865, 7751080820131122918, 2832601849461897293],
    [9089354521286176161, 14940762866348130773, 653524597226805924, 3186905733644210794],
    [9415470920109665901, 15743088074467654466, 4503634048633474370, 2207345398934811469],
    [3827158337171572451, 649557978580556854, 13959610323765300577, 2688014237888198297],
    [8159824360315682141, 17616900787942902316, 1030095532090104071, 404893084162813630],
    [8996982494277160955, 17235344800725020113, 7015977553836221004, 818279558910586206],
    [7866257055566072978, 9644176769344469974, 14594896623136545740, 3061323352564771927],
    [12090003268930124625, 15396661589853455719, 14944026200174424347, 3005931444789254777],
    [14708235615412699457, 8004868947672378869, 11166015605332231836, 2906868676818887632],
    [15732566843510122261, 14031017737351904560, 10103521860688810830, 3283154371730458988],
    [5582906091429528466, 2682316822514875893, 8672162195837783196, 1803079572881009338],
    [671725462778236063, 16104589315232403140, 7264758494776562735, 2587338887110113280],
    [16525537109237234561, 55164694137340135, 12808732236882477058, 2576236670276634598],
    [8981883734258851370, 17086635467390262022, 1422964642735204456, 1280339923495176484],
    [103720196520338361, 2595756607504632315, 3917544833207791606, 3229175403716167302],
    [9061094132723422290, 6582190168604362547, 11677743270894412112, 377352318410170281],
    [11120396555021396639, 9672408613265707916, 12387320998353775774, 735702423959288506],
    [17716532453386191870, 1134488958164647478, 15393388301964796592, 2022486039366263308],
    [5538379934814509712, 6066117965119241768, 4314120311488113484, 2605706237686805245],
    [13150193688591680020, 2071019975873062850, 10629792599598595713, 1020836285235314908],
    [5968077134024075893, 7389877018246127061, 5891831423279399016, 2894467667447025879],
    [546109984919010265, 3340083116100872030, 16891695678111734095, 2923742508576625369],
    [14860119864177959887, 5746163904129430202, 11020048865569510733, 692066112103627281],
    [12875277990906058699, 6656749837643597735, 15744448625966750242, 3094555517136940431],
    [12298799110293813967, 11000432566785120694, 696809752203470366, 923362109167847976],
    [10020898830619256170, 3857287713464204612, 14269135331702181670, 2772315398896172080],
    [390526240196444573, 7392963495118987701, 17889896033179617445, 2475822485261420001],
    [11406314814228268638, 14237347634363623664, 6112157419856014236, 150676291479154001],
    [18104878740929016515, 15914543075875129366, 5099017389141979325, 1109162162339381774],
    [6202598084453032039, 15114457216626790047, 10512196141628471689, 1813407803886916457],
    [3684150792304805767, 892350100651252619, 2833794147122853798, 3017356205202889407],
    [16798356484040538715, 5961145552210384813, 8303226359282657130, 2225476228531726439],
    [16961182957521757383, 6520709997001129967, 15257233709472738361, 771372549006966666],
    [15061126701076975425, 4804047749732606127, 2318422219482827861, 1424072755121836422],
    [15947220427001482772, 3172143662795211204, 15175431433224284665, 3069149459243122623],
    [7687761194435733250, 17080071084603047889, 10132936108017069338, 53704221412998527],
    [3643598108254413174, 14248720143551102197, 1983861302299716905, 40045150354225257],
    [8684057619839068696, 4054363914170500033, 15650558166137332741, 3107583297766256739],
    [10556670791222060028, 3715414045688300737, 1192650548023555551, 3287120474240538366],
    [15833057630945725079, 12382142061567437505, 16099856578901085589, 3000279882986274093],
    [10522833171693866051, 1499366481887106343, 3409195635700361388, 466344386946588417],
    [7654681207755823907, 1684409257054897192, 18311820669351975819, 1130389925368321940],
    [6503710028808175827, 6044961067592720703, 14891270950595596805, 2274136809467936441],
    [10834092554139527687, 13932038735355855492, 8016597289437163090, 1587648440422499065],
    [14696932442279013790, 7478072326152365144, 15495475185321913558, 1646200154323359393],
];

const M_T6: [[u64; 4]; 36] = [
    [902893760510840088, 7877908785409135978, 1653648380007359628, 1316853156480675161],
    [10705339016267238146, 16417801999626805600, 6172924150884730136, 1266161319499378834],
    [14863116828697032773, 17993876359370822655, 10736388359837589534, 2630005357215238681],
    [10983122654047050815, 8919747086682085277, 2519623219950210599, 287521302538651167],
    [10045217766573353478, 6521756444173488806, 11125989239529913685, 1782652648709583191],
    [544046452267346908, 6282744128070038135, 3872825360575175022, 3276583845881571839],
    [1293509516558947338, 3785656624009608201, 10799526533318644300, 743457173069057260],
    [8599381401745072237, 673462607405386005, 8900703113694802670, 1814412788887808805],
    [9878616509694323728, 12802218273224682460, 3875072113823102259, 2994014975637404601],
    [10022759097576423368, 10285483923608477033, 8206714962876821525, 670109354004950994],
    [1674166773633681297, 3715905891675757096, 15441065623484032875, 277112360926788647],
    [1964356468812466817, 15556192890475052790, 16448196626820369847, 2949486582042111336],
    [14284527812175265290, 119035395984546851, 11848602251051100456, 2849569764828660910],
    [1193512870511801559, 1464590756366507263, 481759499197545962, 450041936495522293],
    [13730512151906109279, 12908201642802092332, 11826560353538768793, 1994797540579063078],
    [13150200420380108244, 7543922910448955214, 2406304860736563427, 1379322265060899298],
    [1199455312041335827, 453256626201095586, 10134482682154615670, 24595769209047834],
    [3069750179252540557, 2295753891303233085, 5526729693631587258, 1209747027556915403],
    [2683303607878153890, 13667807793035644957, 8800103967528555915, 880909609603842160],
    [8179888752487057910, 14074795531534780176, 229943340450368140, 594209017218217245],
    [6890328587995230819, 1838647816334183323, 2356720305425845361, 1902600236065342631],
    [5256074031805589562, 3212817152092841983, 18043317754471275154, 79485492745912199],
    [9193030122251117780, 9962455722816543442, 17522361951008400424, 633454368728560968],
    [15902283965759374473, 1579644672937911437, 10760303134874582697, 115266684215792481],
    [15699579780208673842, 3596746540312936955, 8035087091741441706, 2119855529695340994],
    [11708692820111945024, 7259354541796714797, 2523871131729141382, 1269717714524295379],
    [3198878283229790366, 7954081379808565023, 16127447995210508395, 3287076553760478175],
    [3549292669025511000, 6306219936935893550, 9125208221771218707, 2734078812642280975],
    [9136564034461848817, 9714699551935797833, 12370894718933941421, 1462678196084964445],
    [15546666891165427950, 13328207268311019432, 18351513939441619020, 1123385746308670451],
    [12002945045106419853, 9487730137142499505, 15927750887305090504, 2647642693886501382],
    [16928349613206845881, 14022416368914245123, 2808802991504671142, 2384111618495231860],
    [13868641943525554684, 8619110066493552746, 17338647041441367630, 1560072412991697398],
    [7527608575225271704, 7455058445979923219, 11729664840166242288, 329651154467326994],
    [16042037572292661674, 15091818303870577285, 18418642109037794326, 2524620383062271576],
    [14093780331851508068, 14721048150550481038, 2922844820204067221, 1950652394741241246],
];

/// The shipped additive-constant data of width 6.
pub closed spec fn c6_data() -> Seq<[u64; 4]> {
    C_T6@
}

/// The shipped mixing-matrix data of width 6, row-major.
pub closed spec fn m6_data() -> Seq<[u64; 4]> {
    M_T6@
}

/// The additive round constants of width 6, pinned to the shipped data.
pub fn c_t6() -> (v: Vec<[u64; 4]>)
    ensures
        v@ == c6_data(),
        v@.len() == 408,
{
    slice_to_vec(C_T6.as_slice())
}

/// The mixing matrix of width 6, pinned to the shipped data.
pub fn m_t6() -> (v: Vec<[u64; 4]>)
    ensures
        v@ == m6_data(),
        v@.len() == 36,
{
    slice_to_vec(M_T6.as_slice())
}

} // verus!
